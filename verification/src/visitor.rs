//! The field visitor: folds one event's typed attributes into a message,
//! an optional target override, and the `fields` object of the record.
//!
//! Per attribute, in this order:
//! 1. the reserved message key becomes the record's message (string
//!    coercion per [`spec_message_of`]);
//! 2. the reserved target-override key, when its value is a string,
//!    overrides the record's target and is not inserted into `fields`;
//! 3. any other name under the internal namespace prefix is dropped;
//! 4. everything else is inserted into `fields` under its name with the
//!    keyword-escape prefix stripped, last write wins.

use vstd::prelude::*;

use crate::fields::FieldMap;
use crate::fields::lemma_insert_frame;
use crate::fields::lemma_insert_get;
use crate::fields::spec_get;
use crate::fields::spec_insert;
use crate::fields::spec_keys_unique;
use crate::strutil::spec_starts_with;
use crate::strutil::str_eq;
use crate::strutil::str_starts_with;
use crate::value::FieldValue;
use crate::value::ValueView;
use crate::value::json_kind_of;
use crate::value::message_of;
use crate::value::spec_message_of;
use crate::value::spec_strip_quotes;
use crate::value::JsonKind;

verus! {

/// The reserved key whose value becomes the record's message.
pub open spec fn message_key() -> Seq<char> {
    "message"@
}

/// The reserved key whose string value overrides the record's target.
pub open spec fn target_key() -> Seq<char> {
    "log.target"@
}

/// The internal control namespace: attributes under it never reach `fields`.
pub open spec fn internal_prefix() -> Seq<char> {
    "log."@
}

/// The keyword-escape prefix stripped from attribute names.
pub open spec fn escape_prefix() -> Seq<char> {
    "r#"@
}

/// An attribute name with its keyword-escape prefix stripped.
pub open spec fn spec_normalize_key(name: Seq<char>) -> Seq<char> {
    if spec_starts_with(name, escape_prefix()) {
        name.subrange(2, name.len() as int)
    } else {
        name
    }
}

/// Mathematical model of a [`JsonVisitor`].
#[verifier::ext_equal]
pub struct VisitorView {
    pub log_target: Option<Seq<char>>,
    pub message: Option<Seq<char>>,
    pub fields: Seq<(Seq<char>, ValueView)>,
}

/// The visitor before any attribute was recorded.
pub open spec fn init_visitor() -> VisitorView {
    VisitorView {
        log_target: None,
        message: None,
        fields: Seq::empty(),
    }
}

/// One step of the visitor: the state after recording attribute
/// `(name, v)` in state `s`.
pub open spec fn spec_record(s: VisitorView, name: Seq<char>, v: ValueView) -> VisitorView {
    if name == message_key() {
        VisitorView { message: spec_message_of(v), ..s }
    } else if name == target_key() {
        match v {
            ValueView::Str(t) => VisitorView { log_target: Some(t), ..s },
            _ => s,
        }
    } else if spec_starts_with(name, internal_prefix()) {
        s
    } else {
        VisitorView { fields: spec_insert(s.fields, spec_normalize_key(name), v), ..s }
    }
}

/// The visitor state after recording a whole attribute list, in order.
pub open spec fn spec_visit_all(s: VisitorView, attrs: Seq<(Seq<char>, ValueView)>) -> VisitorView
    decreases attrs.len(),
{
    if attrs.len() == 0 {
        s
    } else {
        spec_visit_all(spec_record(s, attrs[0].0, attrs[0].1), attrs.drop_first())
    }
}

/// Folds one event's typed attributes into message, target override and
/// the `fields` object.
pub struct JsonVisitor {
    log_target: Option<String>,
    message: Option<String>,
    fields: FieldMap,
}

impl View for JsonVisitor {
    type V = VisitorView;

    closed spec fn view(&self) -> VisitorView {
        VisitorView {
            log_target: self.log_target.deep_view(),
            message: self.message.deep_view(),
            fields: self.fields@,
        }
    }
}

impl JsonVisitor {
    /// The keys of `fields` are distinct.
    pub closed spec fn wf(&self) -> bool {
        self.fields.wf()
    }

    /// A fresh visitor: no message, no target override, no fields.
    pub fn new() -> (r: JsonVisitor)
        ensures
            r@ == init_visitor(),
            r.wf(),
    {
        let r = JsonVisitor {
            log_target: None,
            message: None,
            fields: FieldMap::new(),
        };
        proof {
            assert(r@ =~= init_visitor());
        }
        r
    }

    /// The message gathered so far, if an attribute supplied one.
    pub fn message(&self) -> (r: &Option<String>)
        ensures
            r.deep_view() == self@.message,
    {
        &self.message
    }

    /// The target override gathered so far, if an attribute supplied one.
    pub fn log_target(&self) -> (r: &Option<String>)
        ensures
            r.deep_view() == self@.log_target,
    {
        &self.log_target
    }

    /// The `fields` object gathered so far.
    pub fn fields(&self) -> (r: &FieldMap)
        requires
            self.wf(),
        ensures
            r@ == self@.fields,
            r.wf(),
    {
        &self.fields
    }

    /// Hands the gathered parts out to the record builder: target
    /// override, message, and the `fields` object, in that order.
    pub fn into_parts(self) -> (r: (Option<String>, Option<String>, FieldMap))
        ensures
            r.0.deep_view() == self@.log_target,
            r.1.deep_view() == self@.message,
            r.2@ == self@.fields,
            self.wf() ==> r.2.wf(),
    {
        (self.log_target, self.message, self.fields)
    }

    /// Records one attribute, applying the four rules in order.
    pub fn record_value(&mut self, name: &str, value: FieldValue)
        requires
            old(self).wf(),
        ensures
            final(self).wf(),
            final(self)@ == spec_record(old(self)@, name@, value@),
    {
        if str_eq(name, "message") {
            self.message = message_of(&value);
            proof {
                assert(self@ =~= spec_record(old(self)@, name@, value@));
            }
        } else if str_eq(name, "log.target") {
            match value {
                FieldValue::Str(t) => {
                    self.log_target = Some(t);
                    proof {
                        assert(self@ =~= spec_record(old(self)@, name@, value@));
                    }
                },
                _ => {
                    proof {
                        assert(self@ =~= spec_record(old(self)@, name@, value@));
                    }
                },
            }
        } else if str_starts_with(name, "log.") {
            proof {
                assert(self@ =~= spec_record(old(self)@, name@, value@));
            }
        } else if str_starts_with(name, "r#") {
            proof {
                reveal_strlit("r#");
            }
            let len = name.unicode_len();
            let bare = name.substring_char(2, len).to_owned();
            assert(bare@ == spec_normalize_key(name@));
            self.fields.insert(bare, value);
            proof {
                assert(self@ =~= spec_record(old(self)@, name@, value@));
            }
        } else {
            let key = name.to_owned();
            assert(key@ == spec_normalize_key(name@));
            self.fields.insert(key, value);
            proof {
                assert(self@ =~= spec_record(old(self)@, name@, value@));
            }
        }
    }

    /// Records a 64-bit float attribute, supplied as its IEEE-754 bits.
    pub fn record_f64(&mut self, name: &str, value_bits: u64)
        requires
            old(self).wf(),
        ensures
            final(self).wf(),
            final(self)@ == spec_record(old(self)@, name@, ValueView::Float(value_bits)),
    {
        self.record_value(name, FieldValue::Float(value_bits));
    }

    /// Records a signed 64-bit integer attribute.
    pub fn record_i64(&mut self, name: &str, value: i64)
        requires
            old(self).wf(),
        ensures
            final(self).wf(),
            final(self)@ == spec_record(old(self)@, name@, ValueView::Int(value)),
    {
        self.record_value(name, FieldValue::Int(value));
    }

    /// Records an unsigned 64-bit integer attribute.
    pub fn record_u64(&mut self, name: &str, value: u64)
        requires
            old(self).wf(),
        ensures
            final(self).wf(),
            final(self)@ == spec_record(old(self)@, name@, ValueView::UInt(value)),
    {
        self.record_value(name, FieldValue::UInt(value));
    }

    /// Records a boolean attribute.
    pub fn record_bool(&mut self, name: &str, value: bool)
        requires
            old(self).wf(),
        ensures
            final(self).wf(),
            final(self)@ == spec_record(old(self)@, name@, ValueView::Bool(value)),
    {
        self.record_value(name, FieldValue::Bool(value));
    }

    /// Records a string attribute.
    pub fn record_str(&mut self, name: &str, value: &str)
        requires
            old(self).wf(),
        ensures
            final(self).wf(),
            final(self)@ == spec_record(old(self)@, name@, ValueView::Str(value@)),
    {
        self.record_value(name, FieldValue::Str(value.to_owned()));
    }

    /// Records a complex attribute, already debug-formatted by the caller.
    pub fn record_debug(&mut self, name: &str, value: String)
        requires
            old(self).wf(),
        ensures
            final(self).wf(),
            final(self)@ == spec_record(old(self)@, name@, ValueView::Debug(value@)),
    {
        let v = FieldValue::Debug(value);
        self.record_value(name, v);
    }
}

/// A key that is allowed to appear in the `fields` object: neither the
/// reserved message key nor anything under the internal namespace.
pub open spec fn spec_key_allowed(k: Seq<char>) -> bool {
    k != message_key() && !spec_starts_with(k, internal_prefix())
}

/// No key of the `fields` object is a reserved or internal one.
pub open spec fn fields_clean(m: Seq<(Seq<char>, ValueView)>) -> bool {
    forall|i: int| 0 <= i < m.len() ==> spec_key_allowed((#[trigger] m[i]).0)
}

/// An attribute name that cannot smuggle a reserved key into `fields`:
/// either it is handled by a reserved-key rule, or its normalized form is
/// an allowed key. Only names that hide a reserved key behind the
/// keyword-escape prefix fall outside this.
pub open spec fn attr_name_ok(k: Seq<char>) -> bool {
    k == message_key() || spec_starts_with(k, internal_prefix()) || spec_key_allowed(
        spec_normalize_key(k),
    )
}

/// Law: for every supported value kind, a plainly-named attribute is stored
/// in `fields` unchanged, so the JSON type of the stored value matches the
/// source kind exactly — floats and integers give numbers, booleans give
/// booleans, direct strings and the debug fallback give strings.
pub proof fn lemma_field_value_kind(s: VisitorView, name: Seq<char>, v: ValueView)
    requires
        spec_keys_unique(s.fields),
        name != message_key(),
        name != target_key(),
        !spec_starts_with(name, internal_prefix()),
    ensures
        spec_get(spec_record(s, name, v).fields, spec_normalize_key(name)) == Some(v),
        json_kind_of(v) == (match v {
            ValueView::Float(_) => JsonKind::Number,
            ValueView::Int(_) => JsonKind::Number,
            ValueView::UInt(_) => JsonKind::Number,
            ValueView::Bool(_) => JsonKind::Boolean,
            ValueView::Str(_) => JsonKind::Text,
            ValueView::Debug(_) => JsonKind::Text,
        }),
        forall|k: Seq<char>|
            k != spec_normalize_key(name) ==> #[trigger] spec_get(
                spec_record(s, name, v).fields,
                k,
            ) == spec_get(s.fields, k),
{
    lemma_insert_get(s.fields, spec_normalize_key(name), v);
    assert forall|k: Seq<char>| k != spec_normalize_key(name) implies #[trigger] spec_get(
        spec_record(s, name, v).fields,
        k,
    ) == spec_get(s.fields, k) by {
        lemma_insert_frame(s.fields, spec_normalize_key(name), v, k);
    }
}

/// Law: the message attribute, however it is typed, changes only the
/// message of the record, to the string its value coerces to; a direct
/// string is taken as is, and a debug-formatted fallback has its
/// surrounding quote characters stripped.
pub proof fn lemma_message_attribute(s: VisitorView, v: ValueView)
    ensures
        spec_record(s, message_key(), v).message == spec_message_of(v),
        spec_record(s, message_key(), v).fields == s.fields,
        spec_record(s, message_key(), v).log_target == s.log_target,
        forall|t: Seq<char>| #[trigger] spec_message_of(ValueView::Str(t)) == Some(t),
        forall|d: Seq<char>| #[trigger] spec_message_of(ValueView::Debug(d)) == Some(
            spec_strip_quotes(d),
        ),
{
}

/// Law: the visitor is a pure transformation — the state after a run is a
/// function of the start state and the attribute list alone, so the same
/// attribute list recorded twice yields the identical `fields` object.
pub proof fn lemma_visitor_pure(
    s1: VisitorView,
    s2: VisitorView,
    attrs: Seq<(Seq<char>, ValueView)>,
)
    requires
        s1 == s2,
    ensures
        spec_visit_all(s1, attrs) == spec_visit_all(s2, attrs),
{
}

/// Law: an attribute whose name carries the keyword-escape prefix (and is
/// not a reserved key) appears in `fields` under the bare name, with the
/// prefix stripped.
pub proof fn lemma_keyword_escape(s: VisitorView, name: Seq<char>, v: ValueView)
    requires
        spec_keys_unique(s.fields),
        spec_starts_with(name, escape_prefix()),
        name != message_key(),
        name != target_key(),
        !spec_starts_with(name, internal_prefix()),
    ensures
        spec_record(s, name, v).fields == spec_insert(
            s.fields,
            name.subrange(2, name.len() as int),
            v,
        ),
        spec_get(spec_record(s, name, v).fields, name.subrange(2, name.len() as int)) == Some(v),
{
    lemma_insert_get(s.fields, spec_normalize_key(name), v);
}

/// Law: an attribute under the internal namespace never reaches `fields`:
/// recording it leaves the `fields` object unchanged.
pub proof fn lemma_internal_namespace_dropped(s: VisitorView, name: Seq<char>, v: ValueView)
    requires
        spec_starts_with(name, internal_prefix()),
    ensures
        spec_record(s, name, v).fields == s.fields,
{
}

/// Recording one attribute whose name is [`attr_name_ok`] keeps the
/// `fields` object clean of reserved and internal keys.
pub proof fn lemma_record_keeps_clean(s: VisitorView, name: Seq<char>, v: ValueView)
    requires
        fields_clean(s.fields),
        attr_name_ok(name),
    ensures
        fields_clean(spec_record(s, name, v).fields),
{
    if name != message_key() && name != target_key() && !spec_starts_with(
        name,
        internal_prefix(),
    ) {
        let k = spec_normalize_key(name);
        let m2 = spec_record(s, name, v).fields;
        assert(m2 == spec_insert(s.fields, k, v));
        assert forall|i: int| 0 <= i < m2.len() implies spec_key_allowed((#[trigger] m2[i]).0) by {
            if i < s.fields.len() {
                assert(spec_key_allowed(s.fields[i].0));
                assert(m2[i].0 == s.fields[i].0 || m2[i].0 == k);
            } else {
                assert(m2[i].0 == k);
            }
        }
    }
}

/// Law: a whole run over attributes with [`attr_name_ok`] names, started
/// from a clean state, ends with a `fields` object free of the reserved
/// message key and of every internal-namespace key.
pub proof fn lemma_visit_all_clean(s: VisitorView, attrs: Seq<(Seq<char>, ValueView)>)
    requires
        fields_clean(s.fields),
        forall|i: int| 0 <= i < attrs.len() ==> attr_name_ok((#[trigger] attrs[i]).0),
    ensures
        fields_clean(spec_visit_all(s, attrs).fields),
    decreases attrs.len(),
{
    if attrs.len() > 0 {
        lemma_record_keeps_clean(s, attrs[0].0, attrs[0].1);
        let s1 = spec_record(s, attrs[0].0, attrs[0].1);
        let rest = attrs.drop_first();
        assert(forall|i: int| 0 <= i < rest.len() ==> attr_name_ok((#[trigger] rest[i]).0));
        lemma_visit_all_clean(s1, rest);
    }
}

impl Default for JsonVisitor {
    /// A fresh visitor, as [`JsonVisitor::new`] builds it.
    fn default() -> (r: JsonVisitor)
        ensures
            r@ == init_visitor(),
            r.wf(),
    {
        JsonVisitor::new()
    }
}

} // verus!
