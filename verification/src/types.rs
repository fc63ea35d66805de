//! The kind of a stored quote and how it travels to and from the database,
//! where it is the enum type `quote_type`.
use vstd::prelude::*;
use vstd::utf8::{decode_utf8, encode_utf8, valid_utf8};

use crate::text::text_eq;

verus! {

/// The kind of message a quote holds.
#[derive(Debug, Clone, Copy, PartialEq, Eq, Structural)]
pub enum QuoteType {
    Text,
    Document,
    Photo,
    Video,
    Voice,
}

/// The label of each kind in the database enum.
pub open spec fn quote_type_label(t: QuoteType) -> Seq<char> {
    match t {
        QuoteType::Text => "Text"@,
        QuoteType::Document => "Document"@,
        QuoteType::Photo => "Photo"@,
        QuoteType::Video => "Video"@,
        QuoteType::Voice => "Voice"@,
    }
}

/// Whether `s` is the label of one of the kinds.
pub open spec fn is_quote_type_label(s: Seq<char>) -> bool {
    s == "Text"@ || s == "Document"@ || s == "Photo"@ || s == "Video"@ || s == "Voice"@
}

/// The kind whose label `s` is, if any.
pub open spec fn quote_type_for_label(s: Seq<char>) -> Option<QuoteType> {
    if s == "Text"@ {
        Some(QuoteType::Text)
    } else if s == "Document"@ {
        Some(QuoteType::Document)
    } else if s == "Photo"@ {
        Some(QuoteType::Photo)
    } else if s == "Video"@ {
        Some(QuoteType::Video)
    } else if s == "Voice"@ {
        Some(QuoteType::Voice)
    } else {
        None
    }
}

/// The kind that the bytes of a database value stand for, if any.
pub open spec fn quote_type_from_bytes(b: Seq<u8>) -> Option<QuoteType> {
    if valid_utf8(b) {
        quote_type_for_label(decode_utf8(b))
    } else {
        None
    }
}

/// Why a database value is not a kind of quote.
#[derive(Debug, PartialEq, Eq)]
pub enum FromSqlError {
    /// The bytes are not UTF-8.
    NotUtf8,
    /// The text is not one of the labels; it is kept for the message.
    InvalidVariant(String),
}

impl FromSqlError {
    /// The message of an unknown label (`invalid variant `...``); bytes that
    /// are not UTF-8 are described by the UTF-8 decoder instead.
    pub fn message(&self) -> (s: Option<String>)
        ensures
            self matches FromSqlError::InvalidVariant(v) ==> s matches Some(m) && m@
                == "invalid variant `"@ + v@ + "`"@,
            self is NotUtf8 ==> s is None,
    {
        match self {
            FromSqlError::NotUtf8 => None,
            FromSqlError::InvalidVariant(v) => {
                let s = String::from_str("invalid variant `");
                let s = s.concat(v.as_str());
                Some(s.concat("`"))
            },
        }
    }
}

/// What a database type looks like to the decoder: an enum with its labels,
/// or any other kind of type.
#[derive(Clone, Debug, PartialEq, Eq)]
pub enum SqlTypeKind {
    Enum(Vec<String>),
    Other,
}

impl QuoteType {
    /// The label written to the database for this kind.
    pub fn name(&self) -> (s: &'static str)
        ensures
            s@ == quote_type_label(*self),
    {
        match self {
            QuoteType::Text => "Text",
            QuoteType::Document => "Document",
            QuoteType::Photo => "Photo",
            QuoteType::Video => "Video",
            QuoteType::Voice => "Voice",
        }
    }

    /// Reads a kind from the bytes of a database value.
    pub fn from_sql(buf: &[u8]) -> (r: Result<QuoteType, FromSqlError>)
        ensures
            r matches Ok(t) ==> quote_type_from_bytes(buf@) == Some(t),
            r matches Err(FromSqlError::NotUtf8) ==> !valid_utf8(buf@),
            r matches Err(FromSqlError::InvalidVariant(s)) ==> valid_utf8(buf@) && s@
                == decode_utf8(buf@) && quote_type_from_bytes(buf@) is None,
    {
        match utf8_text(buf) {
            None => Err(FromSqlError::NotUtf8),
            Some(s) => {
                proof {
                    reveal_strlit("Text");
                    reveal_strlit("Document");
                    reveal_strlit("Photo");
                    reveal_strlit("Video");
                    reveal_strlit("Voice");
                }
                if text_eq(s.as_str(), "Text") {
                    Ok(QuoteType::Text)
                } else if text_eq(s.as_str(), "Document") {
                    Ok(QuoteType::Document)
                } else if text_eq(s.as_str(), "Photo") {
                    Ok(QuoteType::Photo)
                } else if text_eq(s.as_str(), "Video") {
                    Ok(QuoteType::Video)
                } else if text_eq(s.as_str(), "Voice") {
                    Ok(QuoteType::Voice)
                } else {
                    Err(FromSqlError::InvalidVariant(s))
                }
            },
        }
    }

    /// Whether a database type can hold a kind: it must be named `quote_type`
    /// and be an enum of five labels, each one of the kinds' labels.
    #[verifier::loop_isolation(false)]
    pub fn accepts(sql_type: &str, kind: &SqlTypeKind) -> (r: bool)
        ensures
            r == (sql_type@ == "quote_type"@ && match kind {
                SqlTypeKind::Enum(labels) => labels.len() == 5 && forall|i: int|
                    0 <= i < labels.len() ==> is_quote_type_label(#[trigger] labels[i]@),
                SqlTypeKind::Other => false,
            }),
    {
        proof {
            reveal_strlit("quote_type");
            reveal_strlit("Text");
            reveal_strlit("Document");
            reveal_strlit("Photo");
            reveal_strlit("Video");
            reveal_strlit("Voice");
        }
        if !text_eq(sql_type, "quote_type") {
            return false;
        }
        match kind {
            SqlTypeKind::Enum(labels) => {
                if labels.len() != 5 {
                    return false;
                }
                let mut i: usize = 0;
                while i < labels.len()
                    invariant
                        i <= labels.len(),
                        forall|j: int| 0 <= j < i ==> is_quote_type_label(#[trigger] labels[j]@),
                    decreases labels.len() - i,
                {
                    let l = labels[i].as_str();
                    if !(text_eq(l, "Text") || text_eq(l, "Document") || text_eq(l, "Photo")
                        || text_eq(l, "Video") || text_eq(l, "Voice")) {
                        assert(!is_quote_type_label(labels[i as int]@));
                        return false;
                    }
                    i = i + 1;
                }
                true
            },
            SqlTypeKind::Other => false,
        }
    }
}

/// Calls `std::str::from_utf8` and owns the text: `None` exactly when the
/// bytes are not UTF-8, as its documentation says.
#[verifier::external_body]
fn utf8_text(bytes: &[u8]) -> (r: Option<String>)
    ensures
        r is Some <==> valid_utf8(bytes@),
        r matches Some(s) ==> s@ == decode_utf8(bytes@),
{
    match std::str::from_utf8(bytes) {
        Ok(s) => Some(s.to_string()),
        Err(_) => None,
    }
}

/// A kind written to the database reads back as the same kind.
pub proof fn lemma_quote_type_round_trip(t: QuoteType)
    ensures
        quote_type_from_bytes(encode_utf8(quote_type_label(t))) == Some(t),
{
    broadcast use vstd::utf8::encode_utf8_valid_utf8, vstd::utf8::encode_utf8_decode_utf8;

    reveal_strlit("Text");
    reveal_strlit("Document");
    reveal_strlit("Photo");
    reveal_strlit("Video");
    reveal_strlit("Voice");
    assert(decode_utf8(encode_utf8(quote_type_label(t))) == quote_type_label(t));
    // "Voice" and "Video" have the same length; they differ in their second letter.
    assert("Voice"@[1] != "Video"@[1]);
}

} // verus!
