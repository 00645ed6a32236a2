//! Opaque page cursors: the creation time and id of the last game of a page,
//! written as `"<micros>,<uuid>"` and encoded in URL-safe Base64 without padding.
use vstd::prelude::*;
use vstd::string::StringExecFns;
use vstd::utf8::{is_leading_byte_width_1, partial_valid_utf8, partial_valid_utf8_extend_ascii_block, valid_utf8};

use crate::codec::{
    base64_url_decode, base64_url_decoding, base64_url_encode, base64_url_encoding, hex_lower,
    is_utf8, uuid_digit_index, uuid_hyphen_at, uuid_nibble, uuid_parse, uuid_parsed, uuid_text,
    uuid_to_text, utc_micros_representable, utc_micros_valid,
};
use crate::decimal::{format_i64, int_decimal, is_digit, lemma_parse_int_decimal, parse_i64, parse_i64_spec};
use crate::games::GameService;

verus! {

/// The text inside a cursor: the decimal microseconds, a comma, the hyphenated id.
pub open spec fn cursor_text(micros: i64, id: u128) -> Seq<u8> {
    int_decimal(micros as int) + seq![0x2cu8] + uuid_text(id)
}

/// The cursor for the game created at `micros` with id `id`.
pub open spec fn encode_cursor_spec(micros: i64, id: u128) -> Seq<char> {
    base64_url_encoding(cursor_text(micros, id))
}

/// `i` is the position of the first comma of `s`.
pub open spec fn is_first_comma(s: Seq<u8>, i: int) -> bool {
    &&& 0 <= i < s.len()
    &&& s[i] == 0x2cu8
    &&& forall|j: int| 0 <= j < i ==> s[j] != 0x2cu8
}

/// The position of the first comma of `s`, if it has one.
pub open spec fn first_comma(s: Seq<u8>) -> Option<int> {
    if exists|i: int| is_first_comma(s, i) {
        Some(choose|i: int| is_first_comma(s, i))
    } else {
        None
    }
}

/// Reading the text inside a cursor: the time before the first comma, the id after
/// it, each error with its message.
pub open spec fn parse_cursor_text(raw: Seq<u8>) -> Result<(i64, u128), Seq<char>> {
    if !valid_utf8(raw) {
        Err("Invalid utf8"@)
    } else {
        match first_comma(raw) {
            None => Err("Invalid cursor format"@),
            Some(i) => match parse_i64_spec(raw.subrange(0, i)) {
                None => Err("Invalid timestamp"@),
                Some(micros) => match uuid_parsed(raw.subrange(i + 1, raw.len() as int)) {
                    None => Err("Invalid UUID"@),
                    Some(id) => if utc_micros_representable(micros) {
                        Ok((micros, id))
                    } else {
                        Err("Invalid timestamp value"@)
                    },
                },
            },
        }
    }
}

/// Reading a cursor: Base64 first, then the text inside.
pub open spec fn decode_cursor_spec(cursor: Seq<char>) -> Result<(i64, u128), Seq<char>> {
    match base64_url_decoding(cursor) {
        None => Err("Invalid base64"@),
        Some(raw) => parse_cursor_text(raw),
    }
}

/// What reading back the cursor of `(micros, id)` gives.
pub open spec fn cursor_round_trip(micros: i64, id: u128, r: Result<(i64, u128), String>) -> bool {
    if utc_micros_representable(micros) {
        r == Ok::<(i64, u128), String>((micros, id))
    } else {
        r is Err && r->Err_0@ == "Invalid timestamp value"@
    }
}

proof fn lemma_first_comma_unique(s: Seq<u8>, i: int)
    requires
        is_first_comma(s, i),
    ensures
        first_comma(s) == Some(i),
{
    let j = choose|j: int| is_first_comma(s, j);
    assert(is_first_comma(s, j));
    if j < i {
        assert(s[j] != 0x2cu8);
    } else if i < j {
        assert(s[i] != 0x2cu8);
    }
}

proof fn lemma_uuid_text_chars(id: u128)
    ensures
        forall|i: int|
            0 <= i < uuid_text(id).len() ==> #[trigger] uuid_text(id)[i] < 0x80 && uuid_text(id)[i]
                != 0x2cu8,
{
    assert forall|i: int| 0 <= i < uuid_text(id).len() implies #[trigger] uuid_text(id)[i] < 0x80
        && uuid_text(id)[i] != 0x2cu8 by {
        if !uuid_hyphen_at(i) {
            let d = uuid_nibble(id, uuid_digit_index(i));
            assert(d < 16);
            assert(hex_lower(d) == uuid_text(id)[i]);
        }
    }
}

/// Facts about the text inside a cursor: it is ASCII, its first comma follows the
/// time, and the two parts read back as written.
proof fn lemma_cursor_text(micros: i64, id: u128)
    ensures
        valid_utf8(cursor_text(micros, id)),
        first_comma(cursor_text(micros, id)) == Some(int_decimal(micros as int).len() as int),
        cursor_text(micros, id).subrange(0, int_decimal(micros as int).len() as int) == int_decimal(
            micros as int,
        ),
        cursor_text(micros, id).subrange(
            int_decimal(micros as int).len() + 1int,
            cursor_text(micros, id).len() as int,
        ) == uuid_text(id),
        parse_i64_spec(int_decimal(micros as int)) == Some(micros),
{
    let dec = int_decimal(micros as int);
    let raw = cursor_text(micros, id);
    let k = dec.len() as int;
    lemma_parse_int_decimal(micros);
    lemma_uuid_text_chars(id);
    assert(raw.subrange(0, k) =~= dec);
    assert(raw.subrange(k + 1, raw.len() as int) =~= uuid_text(id));
    assert forall|j: int| 0 <= j < raw.len() implies #[trigger] is_leading_byte_width_1(raw[j]) by {
        if j < k {
            assert(raw[j] == dec[j]);
            assert(is_digit(dec[j]) || dec[j] == 0x2du8);
        } else if j > k {
            assert(raw[j] == uuid_text(id)[j - k - 1]);
        }
    }
    assert(raw.subrange(0, 0) =~= Seq::<u8>::empty());
    assert(partial_valid_utf8(raw, 0));
    partial_valid_utf8_extend_ascii_block(raw, 0, raw.len() as int);
    assert(raw.subrange(0, raw.len() as int) =~= raw);
    assert(is_first_comma(raw, k)) by {
        assert forall|j: int| 0 <= j < k implies raw[j] != 0x2cu8 by {
            assert(raw[j] == dec[j]);
            assert(is_digit(dec[j]) || dec[j] == 0x2du8);
        }
    }
    lemma_first_comma_unique(raw, k);
}

impl GameService {
    /// The cursor for the game created at `micros` (microseconds since the Unix
    /// epoch) with id `id`.
    pub fn encode_cursor(micros: i64, id: u128) -> (cursor: String)
        ensures
            cursor@ == encode_cursor_spec(micros, id),
    {
        let mut raw = format_i64(micros);
        raw.push(0x2cu8);
        let mut id_text = uuid_to_text(id);
        raw.append(&mut id_text);
        assert(raw@ =~= cursor_text(micros, id));
        base64_url_encode(raw.as_slice())
    }

    /// Read a cursor back into `(micros, id)`, or say why it cannot be read.
    /// A cursor made by [`GameService::encode_cursor`] reads back as what it was made
    /// from, when `chrono` can represent its time.
    pub fn decode_cursor(cursor: &str) -> (r: Result<(i64, u128), String>)
        ensures
            match decode_cursor_spec(cursor@) {
                Ok(v) => r == Ok::<(i64, u128), String>(v),
                Err(m) => r is Err && r->Err_0@ == m,
            },
            forall|micros: i64, id: u128|
                #[trigger] encode_cursor_spec(micros, id) == cursor@ ==> cursor_round_trip(
                    micros,
                    id,
                    r,
                ),
    {
        match base64_url_decode(cursor) {
            None => {
                let r = Err(String::from_str("Invalid base64"));
                assert forall|micros: i64, id: u128|
                    #[trigger] encode_cursor_spec(micros, id) == cursor@ implies cursor_round_trip(
                    micros,
                    id,
                    r,
                ) by {
                    assert(base64_url_encoding(cursor_text(micros, id)) == cursor@);
                }
                r
            },
            Some(raw) => {
                let r = Self::read_cursor_text(raw.as_slice());
                assert forall|micros: i64, id: u128|
                    #[trigger] encode_cursor_spec(micros, id) == cursor@ implies cursor_round_trip(
                    micros,
                    id,
                    r,
                ) by {
                    assert(base64_url_encoding(cursor_text(micros, id)) == cursor@);
                }
                r
            },
        }
    }

    fn read_cursor_text(raw: &[u8]) -> (r: Result<(i64, u128), String>)
        ensures
            match parse_cursor_text(raw@) {
                Ok(v) => r == Ok::<(i64, u128), String>(v),
                Err(m) => r is Err && r->Err_0@ == m,
            },
            forall|micros: i64, id: u128|
                #[trigger] cursor_text(micros, id) == raw@ ==> cursor_round_trip(micros, id, r),
    {
        if !is_utf8(raw) {
            proof {
                assert forall|micros: i64, id: u128| #[trigger] cursor_text(micros, id) == raw@ implies false by {
                    lemma_cursor_text(micros, id);
                }
            }
            return Err(String::from_str("Invalid utf8"));
        }
        let mut i: usize = 0;
        while i < raw.len()
            invariant
                i <= raw@.len(),
                forall|j: int| 0 <= j < i ==> raw@[j] != 0x2cu8,
            ensures
                i <= raw@.len(),
                forall|j: int| 0 <= j < i ==> raw@[j] != 0x2cu8,
                i < raw@.len() ==> raw@[i as int] == 0x2cu8,
            decreases raw@.len() - i,
        {
            if raw[i] == 0x2cu8 {
                break;
            }
            i = i + 1;
        }
        if i == raw.len() {
            proof {
                assert(!exists|k: int| is_first_comma(raw@, k));
                assert forall|micros: i64, id: u128| #[trigger] cursor_text(micros, id) == raw@ implies false by {
                    lemma_cursor_text(micros, id);
                    let k = int_decimal(micros as int).len() as int;
                    assert(is_first_comma(raw@, k));
                }
            }
            return Err(String::from_str("Invalid cursor format"));
        }
        proof {
            assert(is_first_comma(raw@, i as int));
            lemma_first_comma_unique(raw@, i as int);
            assert forall|micros: i64, id: u128| #[trigger] cursor_text(micros, id) == raw@ implies i
                == int_decimal(micros as int).len() by {
                lemma_cursor_text(micros, id);
            }
        }
        let micros = match parse_i64(raw, 0, i) {
            None => {
                proof {
                    assert forall|m: i64, id: u128| #[trigger] cursor_text(m, id) == raw@ implies false by {
                        lemma_cursor_text(m, id);
                    }
                }
                return Err(String::from_str("Invalid timestamp"));
            },
            Some(m) => m,
        };
        let id = match uuid_parse(&raw[i + 1..raw.len()]) {
            None => {
                proof {
                    assert forall|m: i64, u: u128| #[trigger] cursor_text(m, u) == raw@ implies false by {
                        lemma_cursor_text(m, u);
                        assert(raw@.subrange(i + 1, raw@.len() as int) == uuid_text(u));
                    }
                }
                return Err(String::from_str("Invalid UUID"));
            },
            Some(u) => u,
        };
        proof {
            assert forall|m: i64, u: u128| #[trigger] cursor_text(m, u) == raw@ implies m == micros
                && u == id by {
                lemma_cursor_text(m, u);
                assert(raw@.subrange(i + 1, raw@.len() as int) == uuid_text(u));
            }
        }
        if utc_micros_valid(micros) {
            Ok((micros, id))
        } else {
            Err(String::from_str("Invalid timestamp value"))
        }
    }
}

} // verus!
