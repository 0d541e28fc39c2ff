//! Weight files: raw single-precision values in little-endian order.

use crate::text;
use crate::words;
use vstd::prelude::*;
use vstd::string::*;

verus! {

/// What came back for the request of a weight file.
#[derive(Debug)]
pub enum WeightResponse {
    /// The server did not deliver the file.
    Refused { status: u16, status_text: String },
    /// The contents of the file.
    Body(Vec<u8>),
}

/// Why a weight file cannot be used.
#[derive(Debug)]
pub enum WeightError {
    /// The file was not delivered.
    Fetch { url: String, status: u16, status_text: String },
    /// The file does not consist of whole values.
    Size,
}

impl WeightError {
    /// The error in words.
    pub open spec fn spec_message(self) -> Seq<char> {
        match self {
            WeightError::Fetch { url, status, status_text } => "Failed to fetch "@ + url@ + ": "@
                + text::decimal(status as nat) + " "@ + status_text@,
            WeightError::Size => "Weight file size not multiple of 4"@,
        }
    }

    /// The error in words.
    pub fn message(&self) -> (r: String)
        ensures
            r@ == self.spec_message(),
    {
        match self {
            WeightError::Fetch { url, status, status_text } => {
                let mut r: String = "Failed to fetch ".to_owned();
                r.append(url.as_str());
                r.append(": ");
                text::append_decimal(&mut r, *status as u32);
                r.append(" ");
                r.append(status_text.as_str());
                r
            },
            WeightError::Size => "Weight file size not multiple of 4".to_owned(),
        }
    }
}

/// Reads the weights, as the bits of single-precision values, out of what came back for `url`.
pub fn load_weight_file(url: &str, response: &WeightResponse) -> (r: Result<Vec<u32>, WeightError>)
    ensures
        match response {
            WeightResponse::Refused { status, status_text } => r matches Err(
                WeightError::Fetch { url: u, status: s, status_text: t },
            ) && u@ == url@ && s == *status && t@ == status_text@,
            WeightResponse::Body(bytes) => if bytes@.len() % 4 == 0 {
                r matches Ok(values) && values@ == crate::words::le_words(bytes@)
            } else {
                r == Err::<Vec<u32>, WeightError>(WeightError::Size)
            },
        },
{
    match response {
        WeightResponse::Refused { status, status_text } => Err(
            WeightError::Fetch {
                url: url.to_owned(),
                status: *status,
                status_text: status_text.clone(),
            },
        ),
        WeightResponse::Body(bytes) => if bytes.len() % 4 != 0 {
            Err(WeightError::Size)
        } else {
            Ok(words::pack_words(bytes.as_slice()))
        },
    }
}

/// A file that holds the little-endian bytes of values is accepted, and those values are read
/// from it.
pub proof fn lemma_file_roundtrip(values: Seq<u32>)
    ensures
        crate::words::le_bytes(values).len() % 4 == 0,
        crate::words::le_words(crate::words::le_bytes(values)) == values,
{
    crate::words::lemma_words_roundtrip(values);
}

/// The error names the file, the status and what the server said, each in full.
pub proof fn lemma_message(error: WeightError)
    ensures
        ({
            let m = error.spec_message();
            match error {
                WeightError::Fetch { url, status, status_text } => {
                    let u = 16 + url@.len() as int;
                    let s = u + 2 + text::decimal(status as nat).len() as int;
                    &&& m.subrange(0, 16) == "Failed to fetch "@
                    &&& m.subrange(16, u) == url@
                    &&& m.subrange(u, u + 2) == ": "@
                    &&& text::value(m.subrange(u + 2, s)) == status
                    &&& m.subrange(s, s + 1) == " "@
                    &&& m.skip(s + 1) == status_text@
                },
                WeightError::Size => m == "Weight file size not multiple of 4"@,
            }
        }),
{
    reveal_strlit("Failed to fetch ");
    reveal_strlit(": ");
    reveal_strlit(" ");
    let m = error.spec_message();
    match error {
        WeightError::Fetch { url, status, status_text } => {
            let u = 16 + url@.len() as int;
            let s = u + 2 + text::decimal(status as nat).len() as int;
            text::lemma_decimal_value(status as nat);
            assert(m.subrange(0, 16) =~= "Failed to fetch "@);
            assert(m.subrange(16, u) =~= url@);
            assert(m.subrange(u, u + 2) =~= ": "@);
            assert(m.subrange(u + 2, s) =~= text::decimal(status as nat));
            assert(m.subrange(s, s + 1) =~= " "@);
            assert(m.skip(s + 1) =~= status_text@);
        },
        WeightError::Size => {},
    }
}

/// Of a file of whole values each value is read from its own four bytes, the first of which
/// counts least.
pub proof fn lemma_file_values(bytes: Seq<u8>, i: int)
    requires
        bytes.len() % 4 == 0,
        0 <= i < bytes.len() / 4,
    ensures
        4 * crate::words::le_words(bytes).len() == bytes.len(),
        crate::words::le_words(bytes)[i] == bytes[4 * i] + 256 * bytes[4 * i + 1] + 65536 * bytes[4
            * i + 2] + 16777216 * bytes[4 * i + 3],
{
    crate::words::lemma_byte_order(bytes, seq![], i);
}

} // verus!
