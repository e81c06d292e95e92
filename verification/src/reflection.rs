//! Field values that scripts may write into components, given as text.
use vstd::prelude::*;

verus! {

/// The kinds of component fields that scripting can modify.
#[derive(Debug, Clone, Copy, PartialEq, Eq, Structural)]
pub enum DynamicallyModifiableTypeKind {
    String,
    Bool,
    F32,
}

/// The type of a field that scripting can modify: one of the kinds, possibly
/// wrapped in an `Option`.
#[derive(Debug, Clone, Copy, PartialEq, Eq, Structural)]
pub struct DynamicallyModifiableType {
    option: bool,
    value_type: DynamicallyModifiableTypeKind,
}

/// A field value parsed from script text. A number is carried as its text: the
/// engine side turns it into a float, and rejects the value when the text is no
/// float.
#[derive(Debug, PartialEq, Eq)]
pub enum DynamicValue {
    /// A `String` field's value.
    Text(String),
    /// A `bool` field's value.
    Flag(bool),
    /// The text of an `f32` field's value.
    NumberText(String),
    /// An `Option<String>` field's value.
    OptionalText(Option<String>),
    /// An `Option<bool>` field's value.
    OptionalFlag(Option<bool>),
    /// The text of an `Option<f32>` field's value, or none.
    OptionalNumberText(Option<String>),
}

/// The boolean that a text denotes: exactly "true" or "false".
pub open spec fn bool_of_text(s: Seq<char>) -> Option<bool> {
    if s == "true"@ {
        Some(true)
    } else if s == "false"@ {
        Some(false)
    } else {
        None
    }
}

/// Calls `str::parse::<bool>`, which accepts exactly "true" and "false".
#[verifier::external_body]
fn parse_bool(s: &str) -> (r: Option<bool>)
    ensures
        r == bool_of_text(s@),
{
    s.parse::<bool>().ok()
}

/// The value, if any, that a script text gives a field of the given type: an
/// empty text is the `None` of an optional field; a text field takes the text;
/// a flag field takes "true" or "false" and nothing else; a number field keeps
/// the text for the float parse, which is made outside this library.
pub open spec fn spec_parse(option: bool, kind: DynamicallyModifiableTypeKind, text: Seq<char>) -> Option<ParsedView> {
    if option && text.len() == 0 {
        Some(
            match kind {
                DynamicallyModifiableTypeKind::String => ParsedView::OptionalText(None),
                DynamicallyModifiableTypeKind::Bool => ParsedView::OptionalFlag(None),
                DynamicallyModifiableTypeKind::F32 => ParsedView::OptionalNumberText(None),
            },
        )
    } else if option {
        match kind {
            DynamicallyModifiableTypeKind::String => Some(ParsedView::OptionalText(Some(text))),
            DynamicallyModifiableTypeKind::Bool => match bool_of_text(text) {
                Some(b) => Some(ParsedView::OptionalFlag(Some(b))),
                None => None,
            },
            DynamicallyModifiableTypeKind::F32 => Some(ParsedView::OptionalNumberText(Some(text))),
        }
    } else {
        match kind {
            DynamicallyModifiableTypeKind::String => Some(ParsedView::Text(text)),
            DynamicallyModifiableTypeKind::Bool => match bool_of_text(text) {
                Some(b) => Some(ParsedView::Flag(b)),
                None => None,
            },
            DynamicallyModifiableTypeKind::F32 => Some(ParsedView::NumberText(text)),
        }
    }
}

/// The plain contents of a parsed value.
pub enum ParsedView {
    Text(Seq<char>),
    Flag(bool),
    NumberText(Seq<char>),
    OptionalText(Option<Seq<char>>),
    OptionalFlag(Option<bool>),
    OptionalNumberText(Option<Seq<char>>),
}

/// The characters of an optional text.
pub open spec fn opt_text_view(s: Option<String>) -> Option<Seq<char>> {
    match s {
        Some(t) => Some(t@),
        None => None,
    }
}

impl View for DynamicValue {
    type V = ParsedView;

    open spec fn view(&self) -> ParsedView {
        match self {
            DynamicValue::Text(s) => ParsedView::Text(s@),
            DynamicValue::Flag(b) => ParsedView::Flag(*b),
            DynamicValue::NumberText(s) => ParsedView::NumberText(s@),
            DynamicValue::OptionalText(s) => ParsedView::OptionalText(opt_text_view(*s)),
            DynamicValue::OptionalFlag(b) => ParsedView::OptionalFlag(*b),
            DynamicValue::OptionalNumberText(s) => ParsedView::OptionalNumberText(opt_text_view(*s)),
        }
    }
}

/// The view of an optional parsed value.
pub open spec fn opt_parsed_view(v: Option<DynamicValue>) -> Option<ParsedView> {
    match v {
        Some(d) => Some(d@),
        None => None,
    }
}

impl DynamicallyModifiableType {
    /// The field type of the given kind, wrapped in an `Option` when `option` holds.
    pub fn new(option: bool, value_type: DynamicallyModifiableTypeKind) -> (r: Self)
        ensures
            r.spec_option() == option,
            r.spec_kind() == value_type,
    {
        DynamicallyModifiableType { option, value_type }
    }

    /// Whether the field is an `Option`.
    pub closed spec fn spec_option(&self) -> bool {
        self.option
    }

    /// The kind of the field's value.
    pub closed spec fn spec_kind(&self) -> DynamicallyModifiableTypeKind {
        self.value_type
    }

    /// Whether the field is an `Option`.
    pub fn is_option(&self) -> (r: bool)
        ensures
            r == self.spec_option(),
    {
        self.option
    }

    /// The kind of the field's value.
    pub fn kind(&self) -> (r: DynamicallyModifiableTypeKind)
        ensures
            r == self.spec_kind(),
    {
        self.value_type
    }

    /// Parses script text as a value of this field type; `None` when the text
    /// does not denote one.
    pub fn parse_string(&self, value: &str) -> (r: Option<DynamicValue>)
        ensures
            opt_parsed_view(r) == spec_parse(self.spec_option(), self.spec_kind(), value@),
    {
        if self.option && value.is_empty() {
            Some(
                match self.value_type {
                    DynamicallyModifiableTypeKind::String => DynamicValue::OptionalText(None),
                    DynamicallyModifiableTypeKind::Bool => DynamicValue::OptionalFlag(None),
                    DynamicallyModifiableTypeKind::F32 => DynamicValue::OptionalNumberText(None),
                },
            )
        } else if self.option {
            match self.value_type {
                DynamicallyModifiableTypeKind::String => Some(DynamicValue::OptionalText(Some(value.to_owned()))),
                DynamicallyModifiableTypeKind::Bool => match parse_bool(value) {
                    Some(b) => Some(DynamicValue::OptionalFlag(Some(b))),
                    None => None,
                },
                DynamicallyModifiableTypeKind::F32 => Some(DynamicValue::OptionalNumberText(Some(value.to_owned()))),
            }
        } else {
            match self.value_type {
                DynamicallyModifiableTypeKind::String => Some(DynamicValue::Text(value.to_owned())),
                DynamicallyModifiableTypeKind::Bool => match parse_bool(value) {
                    Some(b) => Some(DynamicValue::Flag(b)),
                    None => None,
                },
                DynamicallyModifiableTypeKind::F32 => Some(DynamicValue::NumberText(value.to_owned())),
            }
        }
    }
}

/// Every text is a value of a text field, and of an optional text field; a flag
/// field accepts exactly the texts "true" and "false".
pub proof fn lemma_parse_acceptance(option: bool, text: Seq<char>)
    ensures
        spec_parse(option, DynamicallyModifiableTypeKind::String, text) is Some,
        spec_parse(option, DynamicallyModifiableTypeKind::F32, text) is Some,
        spec_parse(false, DynamicallyModifiableTypeKind::Bool, text) is Some <==> (text == "true"@ || text == "false"@),
        spec_parse(true, DynamicallyModifiableTypeKind::Bool, text) is Some <==> (text.len() == 0 || text == "true"@ || text == "false"@),
{
}

/// The values that texts give: a text field takes the text itself; a flag
/// field takes true from "true" and false from "false"; an empty text is the
/// empty value of an optional field of any kind.
pub proof fn lemma_parse_values(kind: DynamicallyModifiableTypeKind, text: Seq<char>)
    ensures
        spec_parse(false, DynamicallyModifiableTypeKind::String, text) == Some(ParsedView::Text(text)),
        spec_parse(false, DynamicallyModifiableTypeKind::Bool, text) matches Some(ParsedView::Flag(b)) ==> (b <==> text == "true"@),
        spec_parse(false, DynamicallyModifiableTypeKind::Bool, "true"@) == Some(ParsedView::Flag(true)),
        spec_parse(false, DynamicallyModifiableTypeKind::Bool, "false"@) == Some(ParsedView::Flag(false)),
        spec_parse(false, DynamicallyModifiableTypeKind::F32, text) == Some(ParsedView::NumberText(text)),
        text.len() > 0 ==> spec_parse(true, DynamicallyModifiableTypeKind::String, text) == Some(ParsedView::OptionalText(Some(text))),
        spec_parse(true, kind, Seq::empty()) is Some,
        spec_parse(true, DynamicallyModifiableTypeKind::String, Seq::empty()) == Some(ParsedView::OptionalText(None)),
        spec_parse(true, DynamicallyModifiableTypeKind::Bool, Seq::empty()) == Some(ParsedView::OptionalFlag(None)),
        spec_parse(true, DynamicallyModifiableTypeKind::F32, Seq::empty()) == Some(ParsedView::OptionalNumberText(None)),
{
    reveal_strlit("true");
    reveal_strlit("false");
    assert("false"@.len() != "true"@.len());
}

} // verus!
