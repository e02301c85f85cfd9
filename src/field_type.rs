use vstd::prelude::*;
use vstd::string::*;

use crate::error::GridError;

verus! {

/// The declared type of a field; each variant has a one-digit tag.
#[derive(Debug, Clone, Copy, PartialEq, Eq, Structural)]
pub enum FieldType {
    RichText,
    Number,
    DateTime,
    SingleSelect,
    MultiSelect,
    Checkbox,
}

/// The tag of a field type: its position among the variants, as one digit.
pub open spec fn tag_of(t: FieldType) -> Seq<char> {
    match t {
        FieldType::RichText => seq!['0'],
        FieldType::Number => seq!['1'],
        FieldType::DateTime => seq!['2'],
        FieldType::SingleSelect => seq!['3'],
        FieldType::MultiSelect => seq!['4'],
        FieldType::Checkbox => seq!['5'],
    }
}

/// The field type that a tag names, if any: a single digit from '0' to '5'.
pub open spec fn type_of(tag: Seq<char>) -> Option<FieldType> {
    if tag.len() != 1 {
        None
    } else {
        match tag[0] {
            '0' => Some(FieldType::RichText),
            '1' => Some(FieldType::Number),
            '2' => Some(FieldType::DateTime),
            '3' => Some(FieldType::SingleSelect),
            '4' => Some(FieldType::MultiSelect),
            '5' => Some(FieldType::Checkbox),
            _ => None,
        }
    }
}

/// Whether a tag is one of the six strings "0" to "5".
pub open spec fn is_known_tag(tag: Seq<char>) -> bool {
    tag == seq!['0'] || tag == seq!['1'] || tag == seq!['2'] || tag == seq!['3'] || tag
        == seq!['4'] || tag == seq!['5']
}

impl FieldType {
    /// The tag of this type as a string.
    pub fn type_id(&self) -> (r: String)
        ensures
            r@ == tag_of(*self),
    {
        proof {
            reveal_strlit("0");
            reveal_strlit("1");
            reveal_strlit("2");
            reveal_strlit("3");
            reveal_strlit("4");
            reveal_strlit("5");
        }
        let s: &str = match self {
            FieldType::RichText => "0",
            FieldType::Number => "1",
            FieldType::DateTime => "2",
            FieldType::SingleSelect => "3",
            FieldType::MultiSelect => "4",
            FieldType::Checkbox => "5",
        };
        let r = s.to_owned();
        assert(r@ =~= tag_of(*self));
        r
    }

    /// Decodes a tag; anything but "0" to "5" is `InvalidTag`.
    pub fn from_type_id(type_id: &str) -> (r: Result<FieldType, GridError>)
        ensures
            r == (match type_of(type_id@) {
                Some(t) => Ok::<FieldType, GridError>(t),
                None => Err(GridError::InvalidTag),
            }),
    {
        if type_id.unicode_len() != 1 {
            return Err(GridError::InvalidTag);
        }
        let c = type_id.get_char(0);
        assert(type_id@ =~= seq![c]);
        if c == '0' {
            Ok(FieldType::RichText)
        } else if c == '1' {
            Ok(FieldType::Number)
        } else if c == '2' {
            Ok(FieldType::DateTime)
        } else if c == '3' {
            Ok(FieldType::SingleSelect)
        } else if c == '4' {
            Ok(FieldType::MultiSelect)
        } else if c == '5' {
            Ok(FieldType::Checkbox)
        } else {
            Err(GridError::InvalidTag)
        }
    }
}

impl Default for FieldType {
    fn default() -> (r: FieldType)
        ensures
            r == FieldType::RichText,
    {
        FieldType::RichText
    }
}

/// Decoding the tag of a field type gives that type back.
pub proof fn lemma_tag_round_trip(t: FieldType)
    ensures
        type_of(tag_of(t)) == Some(t),
{
}

/// A tag other than the digits "0" to "5" names no field type.
pub proof fn lemma_unknown_tag_rejected(tag: Seq<char>)
    requires
        !is_known_tag(tag),
    ensures
        type_of(tag) is None,
{
    if tag.len() == 1 {
        assert(tag =~= seq![tag[0]]);
    }
}

} // verus!
