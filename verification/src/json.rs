//! The compact structured-text (JSON) encoding of the provider payload,
//! written out character by character and proved equal to its specification.

use vstd::prelude::*;

use crate::data::{dict_view, Dict};

verus! {

/// The lower-case hexadecimal digit for a value below 16.
pub open spec fn spec_hex_digit(n: int) -> char {
    if n == 0 {
        '0'
    } else if n == 1 {
        '1'
    } else if n == 2 {
        '2'
    } else if n == 3 {
        '3'
    } else if n == 4 {
        '4'
    } else if n == 5 {
        '5'
    } else if n == 6 {
        '6'
    } else if n == 7 {
        '7'
    } else if n == 8 {
        '8'
    } else if n == 9 {
        '9'
    } else if n == 10 {
        'a'
    } else if n == 11 {
        'b'
    } else if n == 12 {
        'c'
    } else if n == 13 {
        'd'
    } else if n == 14 {
        'e'
    } else {
        'f'
    }
}

/// How one character appears inside a JSON string literal: quotes and
/// backslashes are escaped, control characters become a `\u00XX` escape,
/// and every other character stands as itself.
pub open spec fn escape_char(c: char) -> Seq<char> {
    if c == '"' {
        seq!['\\', '"']
    } else if c == '\\' {
        seq!['\\', '\\']
    } else if (c as int) < 32 {
        seq!['\\', 'u', '0', '0', spec_hex_digit((c as int) / 16), spec_hex_digit((c as int) % 16)]
    } else {
        seq![c]
    }
}

/// The body of a JSON string literal: each character escaped in order.
pub open spec fn escape_seq(s: Seq<char>) -> Seq<char>
    decreases s.len(),
{
    if s.len() == 0 {
        Seq::empty()
    } else {
        escape_seq(s.drop_last()) + escape_char(s.last())
    }
}

/// One `"key":"value"` member of the props object.
pub open spec fn prop_item_json(kv: (Seq<char>, Seq<char>)) -> Seq<char> {
    "\""@ + escape_seq(kv.0) + "\":\""@ + escape_seq(kv.1) + "\""@
}

/// The comma-separated members of the props object, in list order.
pub open spec fn props_items_json(ps: Seq<(Seq<char>, Seq<char>)>) -> Seq<char>
    decreases ps.len(),
{
    if ps.len() == 0 {
        Seq::empty()
    } else if ps.len() == 1 {
        prop_item_json(ps.last())
    } else {
        props_items_json(ps.drop_last()) + ","@ + prop_item_json(ps.last())
    }
}

/// The props object: its members wrapped in braces.
pub open spec fn props_json(ps: Seq<(Seq<char>, Seq<char>)>) -> Seq<char> {
    "{"@ + props_items_json(ps) + "}"@
}

/// The serialized payload: a JSON object with the keys `name`, `domain`,
/// `url`, `referrer` and `props`, in that order.
pub open spec fn payload_json(
    name: Seq<char>,
    domain: Seq<char>,
    url: Seq<char>,
    referrer: Seq<char>,
    props: Seq<(Seq<char>, Seq<char>)>,
) -> Seq<char> {
    "{\"name\":\""@ + escape_seq(name) + "\",\"domain\":\""@ + escape_seq(domain)
        + "\",\"url\":\""@ + escape_seq(url) + "\",\"referrer\":\""@ + escape_seq(referrer)
        + "\",\"props\":"@ + props_json(props) + "}"@
}

/// The lower-case hexadecimal digit for a nibble, as a one-character slice.
fn hex_digit_str(n: u8) -> (r: &'static str)
    requires
        n < 16,
    ensures
        r@ == seq![spec_hex_digit(n as int)],
{
    proof {
        reveal_strlit("0");
        reveal_strlit("1");
        reveal_strlit("2");
        reveal_strlit("3");
        reveal_strlit("4");
        reveal_strlit("5");
        reveal_strlit("6");
        reveal_strlit("7");
        reveal_strlit("8");
        reveal_strlit("9");
        reveal_strlit("a");
        reveal_strlit("b");
        reveal_strlit("c");
        reveal_strlit("d");
        reveal_strlit("e");
        reveal_strlit("f");
    }
    let r: &'static str = match n {
        0 => "0",
        1 => "1",
        2 => "2",
        3 => "3",
        4 => "4",
        5 => "5",
        6 => "6",
        7 => "7",
        8 => "8",
        9 => "9",
        10 => "a",
        11 => "b",
        12 => "c",
        13 => "d",
        14 => "e",
        _ => "f",
    };
    proof {
        assert(r@ =~= seq![spec_hex_digit(n as int)]);
    }
    r
}

/// Appends the escaped form of `s` to `out`.
fn append_escaped(out: &mut String, s: &str)
    ensures
        final (out)@ == old(out)@ + escape_seq(s@),
{
    let n = s.unicode_len();
    let mut i: usize = 0;
    while i < n
        invariant
            n == s@.len(),
            i <= n,
            out@ == old(out)@ + escape_seq(s@.subrange(0, i as int)),
        decreases n - i,
    {
        proof {
            assert(s@.subrange(0, i + 1).drop_last() =~= s@.subrange(0, i as int));
            assert(s@.subrange(0, i + 1).last() == s@[i as int]);
        }
        let ghost prefix = out@;
        let c = s.get_char(i);
        if c == '"' {
            out.append("\\\"");
            proof {
                reveal_strlit("\\\"");
                assert(out@ =~= prefix + escape_char(c));
            }
        } else if c == '\\' {
            out.append("\\\\");
            proof {
                reveal_strlit("\\\\");
                assert(out@ =~= prefix + escape_char(c));
            }
        } else if (c as u32) < 32 {
            let code = c as u32;
            let high = (code / 16) as u8;
            let low = (code % 16) as u8;
            out.append("\\u00");
            out.append(hex_digit_str(high));
            out.append(hex_digit_str(low));
            proof {
                reveal_strlit("\\u00");
                assert(high as int == (c as int) / 16);
                assert(low as int == (c as int) % 16);
                assert(out@ =~= prefix + escape_char(c));
            }
        } else {
            out.append(s.substring_char(i, i + 1));
            proof {
                assert(s@.subrange(i as int, i + 1) =~= seq![c]);
                assert(out@ =~= prefix + escape_char(c));
            }
        }
        proof {
            assert(out@ =~= old(out)@ + escape_seq(s@.subrange(0, i + 1)));
        }
        i += 1;
    }
    proof {
        assert(s@.subrange(0, n as int) =~= s@);
    }
}

/// Appends the props object to `out`.
fn append_props(out: &mut String, props: &Dict)
    ensures
        final (out)@ == old(out)@ + props_json(dict_view(props@)),
{
    let ghost pv = dict_view(props@);
    out.append("{");
    let mut i: usize = 0;
    while i < props.len()
        invariant
            i <= props.len(),
            pv == dict_view(props@),
            pv.len() == props@.len(),
            forall|j: int| 0 <= j < pv.len() ==> pv[j] == (props@[j].0@, props@[j].1@),
            out@ == old(out)@ + "{"@ + props_items_json(pv.subrange(0, i as int)),
        decreases props.len() - i,
    {
        proof {
            assert(pv.subrange(0, i + 1).drop_last() =~= pv.subrange(0, i as int));
            assert(pv.subrange(0, i + 1).last() == pv[i as int]);
        }
        let ghost prefix = out@;
        if i > 0 {
            out.append(",");
        }
        out.append("\"");
        append_escaped(out, props[i].0.as_str());
        out.append("\":\"");
        append_escaped(out, props[i].1.as_str());
        out.append("\"");
        proof {
            if i == 0 {
                assert(out@ =~= prefix + prop_item_json(pv[i as int]));
                assert(out@ =~= old(out)@ + "{"@ + props_items_json(pv.subrange(0, i + 1)));
            } else {
                assert(out@ =~= prefix + ","@ + prop_item_json(pv[i as int]));
                assert(out@ =~= old(out)@ + "{"@ + props_items_json(pv.subrange(0, i + 1)));
            }
        }
        i += 1;
    }
    out.append("}");
    proof {
        assert(pv.subrange(0, props@.len() as int) =~= pv);
        assert(out@ =~= old(out)@ + props_json(pv));
    }
}

/// Serializes the payload fields to the compact JSON body. The payload holds
/// only strings and a string-keyed string-valued mapping, so serialization
/// cannot fail.
pub fn payload_body(
    name: &str,
    domain: &str,
    url: &str,
    referrer: &str,
    props: &Dict,
) -> (r: String)
    ensures
        r@ == payload_json(name@, domain@, url@, referrer@, dict_view(props@)),
{
    let mut out = String::new();
    out.append("{\"name\":\"");
    append_escaped(&mut out, name);
    out.append("\",\"domain\":\"");
    append_escaped(&mut out, domain);
    out.append("\",\"url\":\"");
    append_escaped(&mut out, url);
    out.append("\",\"referrer\":\"");
    append_escaped(&mut out, referrer);
    out.append("\",\"props\":");
    append_props(&mut out, props);
    out.append("}");
    proof {
        assert(out@ =~= payload_json(name@, domain@, url@, referrer@, dict_view(props@)));
    }
    out
}

} // verus!
