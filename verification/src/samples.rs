//! Sample inputs: bytes written as hexadecimal text, and a complete admin
//! settings form body.
use vstd::prelude::*;
use crate::text::{append_str, chars_of, is_whitespace_char, is_ws};

verus! {

/// The characters of `s` that are not white space.
pub open spec fn without_ws(s: Seq<char>) -> Seq<char>
    decreases s.len(),
{
    if s.len() == 0 {
        Seq::empty()
    } else if is_ws(s.last()) {
        without_ws(s.drop_last())
    } else {
        without_ws(s.drop_last()).push(s.last())
    }
}

pub open spec fn is_hex(c: char) -> bool {
    ('0' <= c && c <= '9') || ('a' <= c && c <= 'f') || ('A' <= c && c <= 'F')
}

pub open spec fn hex_value(c: char) -> u8 {
    if '0' <= c && c <= '9' {
        (c as u32 - '0' as u32) as u8
    } else if 'a' <= c && c <= 'f' {
        (c as u32 - 'a' as u32 + 10) as u8
    } else {
        (c as u32 - 'A' as u32 + 10) as u8
    }
}

/// Whether a piece of at most two characters is a hexadecimal byte as
/// `u8::from_str_radix(_, 16)` reads it: one or two digits, or `+` and a digit.
pub open spec fn hex_piece_ok(p: Seq<char>) -> bool {
    ||| (p.len() == 1 && is_hex(p[0]))
    ||| (p.len() == 2 && is_hex(p[0]) && is_hex(p[1]))
    ||| (p.len() == 2 && p[0] == '+' && is_hex(p[1]))
}

pub open spec fn hex_piece_value(p: Seq<char>) -> u8 {
    if p.len() == 2 && is_hex(p[0]) {
        (hex_value(p[0]) * 16 + hex_value(p[1])) as u8
    } else if p.len() == 2 {
        hex_value(p[1])
    } else {
        hex_value(p[0])
    }
}

/// Whether every two-character piece of `s` (the last may be one character)
/// is a hexadecimal byte.
pub open spec fn hex_pieces_ok(s: Seq<char>) -> bool
    decreases s.len(),
{
    if s.len() <= 2 {
        s.len() == 0 || hex_piece_ok(s)
    } else {
        hex_piece_ok(s.take(2)) && hex_pieces_ok(s.skip(2))
    }
}

/// The bytes written by the pieces of `s`.
pub open spec fn hex_pieces(s: Seq<char>) -> Seq<u8>
    decreases s.len(),
{
    if s.len() == 0 {
        Seq::empty()
    } else if s.len() <= 2 {
        seq![hex_piece_value(s)]
    } else {
        seq![hex_piece_value(s.take(2))] + hex_pieces(s.skip(2))
    }
}

fn hex_char_value(c: char) -> (r: u8)
    requires
        is_hex(c),
    ensures
        r == hex_value(c),
        r < 16,
{
    let v = c as u32;
    if '0' <= c && c <= '9' {
        (v - 48) as u8
    } else if 'a' <= c && c <= 'f' {
        (v - 97 + 10) as u8
    } else {
        (v - 65 + 10) as u8
    }
}

fn is_hex_char(c: char) -> (b: bool)
    ensures
        b == is_hex(c),
{
    ('0' <= c && c <= '9') || ('a' <= c && c <= 'f') || ('A' <= c && c <= 'F')
}

/// The bytes written as hexadecimal text, white space ignored: each pair of
/// digits is a byte, and a last lone digit is one too.
pub fn hex_fixture(input: &str) -> (r: Vec<u8>)
    requires
        hex_pieces_ok(without_ws(input@)),
    ensures
        r@ == hex_pieces(without_ws(input@)),
{
    let cs = chars_of(input);
    let mut compact: Vec<char> = Vec::new();
    let mut i: usize = 0;
    while i < cs.len()
        invariant
            i <= cs.len(),
            cs@ == input@,
            compact@ == without_ws(input@.take(i as int)),
        decreases cs.len() - i,
    {
        assert(input@.take(i + 1).drop_last() == input@.take(i as int));
        if !is_whitespace_char(cs[i]) {
            compact.push(cs[i]);
        }
        i += 1;
    }
    assert(input@.take(cs.len() as int) == input@);
    let ghost whole = compact@;
    let mut out: Vec<u8> = Vec::new();
    let mut k: usize = 0;
    assert(whole.skip(0) =~= whole);
    assert(out@ + hex_pieces(whole) =~= hex_pieces(whole));
    while k < compact.len()
        invariant
            k <= compact.len(),
            compact@ == whole,
            hex_pieces_ok(whole.skip(k as int)),
            hex_pieces(whole) == out@ + hex_pieces(whole.skip(k as int)),
        decreases compact.len() - k,
    {
        let ghost rest = whole.skip(k as int);
        let n = if compact.len() - k >= 2 {
            2
        } else {
            1
        };
        let a = compact[k];
        let v: u8 = if n == 2 {
            let b = compact[k + 1];
            assert(rest.take(2) =~= seq![a, b]);
            assert(hex_piece_ok(rest.take(2)));
            if a == '+' {
                hex_char_value(b)
            } else {
                let x = hex_char_value(a);
                let y = hex_char_value(b);
                x * 16 + y
            }
        } else {
            assert(rest =~= seq![a]);
            hex_char_value(a)
        };
        let ghost before = out@;
        out.push(v);
        proof {
            if rest.len() <= 2 {
                assert(rest.skip(n as int) =~= Seq::<char>::empty());
                if rest.len() == 2 {
                    assert(rest.take(2) =~= rest);
                }
            } else {
                assert(whole.skip(k + n) =~= rest.skip(2));
            }
            assert(hex_pieces(rest) == seq![v] + hex_pieces(whole.skip(k + n)));
            assert(before + (seq![v] + hex_pieces(whole.skip(k + n))) =~= out@ + hex_pieces(
                whole.skip(k + n),
            ));
        }
        k += n;
    }
    assert(whole.skip(k as int) =~= Seq::<char>::empty());
    out
}

/// The fields of a complete admin settings form, in order; the login feature
/// fields come last when they are on.
pub open spec fn settings_form_fields(csrf: Seq<char>, oidc_login: bool, local_login: bool) -> Seq<
    (Seq<char>, Seq<char>),
> {
    let base = seq![
        ("feature_files"@, "on"@),
        ("feature_pastes"@, "on"@),
        ("feature_accounts"@, "on"@),
        ("feature_api"@, "on"@),
        ("feature_reports"@, "on"@),
        ("max_upload_bytes"@, "2147483648"@),
        ("max_paste_bytes"@, "1048576"@),
        ("signup"@, "open"@),
        ("policy_upload_file"@, "anonymous"@),
        ("policy_create_paste"@, "anonymous"@),
        ("policy_use_api"@, "anonymous"@),
        ("policy_view_item"@, "anonymous"@),
        ("policy_delete_own_item"@, "owner"@),
        ("policy_claim_anonymous_item"@, "authenticated"@),
        ("policy_create_account"@, "anonymous"@),
        ("delete_policy"@, "delete_tokens"@),
        ("content_disposition"@, "attachment"@),
        ("risky_mime_mode"@, "attachment"@),
        ("metrics_access"@, "public"@),
        ("rate_limit_backend"@, "memory"@),
        ("default_on_error"@, "allow"@),
        ("instance_name"@, "Midden"@),
        ("tagline"@, ""@),
        ("accent_color"@, "#4f46e5"@),
        ("dark_mode"@, "auto"@),
        ("opengraph_description"@, ""@),
        ("takedown_page_text"@, ""@),
        ("csrf_token"@, csrf),
    ];
    let with_oidc = if oidc_login {
        base.push(("feature_oidc_login"@, "on"@))
    } else {
        base
    };
    if local_login {
        with_oidc.push(("feature_local_login"@, "on"@))
    } else {
        with_oidc
    }
}

/// `key=value` pairs joined by `&`.
pub open spec fn form_encode(fields: Seq<(Seq<char>, Seq<char>)>) -> Seq<char>
    decreases fields.len(),
{
    if fields.len() == 0 {
        Seq::empty()
    } else if fields.len() == 1 {
        fields[0].0 + "="@ + fields[0].1
    } else {
        form_encode(fields.drop_last()) + "&"@ + fields.last().0 + "="@ + fields.last().1
    }
}

pub open spec fn pairs_view(v: Seq<(&str, &str)>) -> Seq<(Seq<char>, Seq<char>)> {
    v.map_values(|p: (&str, &str)| (p.0@, p.1@))
}

/// The body of an admin settings form submission with every field a valid
/// form needs, the given CSRF token, and the login features asked for.
pub fn admin_settings_form_body(csrf: &str, oidc_login: bool, local_login: bool) -> (r: String)
    ensures
        r@ == form_encode(settings_form_fields(csrf@, oidc_login, local_login)),
{
    let mut fields: Vec<(&str, &str)> = vec![
        ("feature_files", "on"),
        ("feature_pastes", "on"),
        ("feature_accounts", "on"),
        ("feature_api", "on"),
        ("feature_reports", "on"),
        ("max_upload_bytes", "2147483648"),
        ("max_paste_bytes", "1048576"),
        ("signup", "open"),
        ("policy_upload_file", "anonymous"),
        ("policy_create_paste", "anonymous"),
        ("policy_use_api", "anonymous"),
        ("policy_view_item", "anonymous"),
        ("policy_delete_own_item", "owner"),
        ("policy_claim_anonymous_item", "authenticated"),
        ("policy_create_account", "anonymous"),
        ("delete_policy", "delete_tokens"),
        ("content_disposition", "attachment"),
        ("risky_mime_mode", "attachment"),
        ("metrics_access", "public"),
        ("rate_limit_backend", "memory"),
        ("default_on_error", "allow"),
        ("instance_name", "Midden"),
        ("tagline", ""),
        ("accent_color", "#4f46e5"),
        ("dark_mode", "auto"),
        ("opengraph_description", ""),
        ("takedown_page_text", ""),
        ("csrf_token", csrf),
    ];
    if oidc_login {
        fields.push(("feature_oidc_login", "on"));
    }
    if local_login {
        fields.push(("feature_local_login", "on"));
    }
    assert(pairs_view(fields@) =~= settings_form_fields(csrf@, oidc_login, local_login));
    let ghost all = pairs_view(fields@);
    let mut out = String::new();
    let mut i: usize = 0;
    while i < fields.len()
        invariant
            i <= fields.len(),
            all == pairs_view(fields@),
            all.len() == fields@.len(),
            out@ == form_encode(all.take(i as int)),
        decreases fields.len() - i,
    {
        if i > 0 {
            append_str(&mut out, "&");
        }
        append_str(&mut out, fields[i].0);
        append_str(&mut out, "=");
        append_str(&mut out, fields[i].1);
        proof {
            let t = all.take(i + 1);
            assert(t.drop_last() =~= all.take(i as int));
            assert(t.last() == all[i as int]);
            if i == 0 {
                assert(t.len() == 1);
                assert(t[0] == all[0]);
                assert(all.take(0).len() == 0);
            }
        }
        i += 1;
    }
    assert(all.take(fields.len() as int) =~= all);
    out
}

proof fn lemma_hex_pieces_append(a: Seq<char>, b: Seq<char>)
    requires
        a.len() % 2 == 0,
    ensures
        hex_pieces(a + b) == hex_pieces(a) + hex_pieces(b),
        hex_pieces_ok(a + b) == (hex_pieces_ok(a) && hex_pieces_ok(b)),
    decreases a.len(),
{
    if a.len() == 0 {
        assert(a + b =~= b);
        assert(hex_pieces(a) =~= Seq::<u8>::empty());
        assert(hex_pieces(a) + hex_pieces(b) =~= hex_pieces(b));
    } else if a.len() == 2 {
        if b.len() == 0 {
            assert(a + b =~= a);
            assert(hex_pieces(b) =~= Seq::<u8>::empty());
            assert(hex_pieces(a) + hex_pieces(b) =~= hex_pieces(a));
        } else {
            assert((a + b).take(2) =~= a);
            assert((a + b).skip(2) =~= b);
        }
    } else {
        let rest = a.skip(2);
        lemma_hex_pieces_append(rest, b);
        assert((a + b).take(2) =~= a.take(2));
        assert((a + b).skip(2) =~= rest + b);
        assert(seq![hex_piece_value(a.take(2))] + (hex_pieces(rest) + hex_pieces(b)) =~= (seq![
            hex_piece_value(a.take(2)),
        ] + hex_pieces(rest)) + hex_pieces(b));
    }
}

proof fn lemma_hex_digit(v: u8)
    requires
        v < 16,
    ensures
        is_hex(crate::crypto::hex_digit(v)),
        hex_value(crate::crypto::hex_digit(v)) == v,
        !is_ws(crate::crypto::hex_digit(v)),
        crate::crypto::hex_digit(v) != '+',
{
    let c = crate::crypto::hex_digit(v);
    if v < 10 {
        assert(c as u32 == 48 + v);
    } else {
        assert(c as u32 == 97 + v - 10);
    }
}

proof fn lemma_hex_lower_len(data: Seq<u8>)
    ensures
        crate::crypto::hex_lower(data).len() == 2 * data.len(),
    decreases data.len(),
{
    if data.len() > 0 {
        lemma_hex_lower_len(data.drop_last());
    }
}

proof fn lemma_without_ws_hex(data: Seq<u8>)
    ensures
        without_ws(crate::crypto::hex_lower(data)) == crate::crypto::hex_lower(data),
    decreases data.len(),
{
    if data.len() > 0 {
        let init = data.drop_last();
        let x = data.last();
        lemma_without_ws_hex(init);
        lemma_hex_digit(x / 16);
        lemma_hex_digit(x % 16);
        let h = crate::crypto::hex_lower(init);
        let t = crate::crypto::hex_lower(data);
        let c1 = crate::crypto::hex_digit(x / 16);
        let c2 = crate::crypto::hex_digit(x % 16);
        assert(t == h + seq![c1, c2]);
        assert(t.drop_last() =~= h.push(c1));
        assert(t.drop_last().drop_last() =~= h);
        assert(t.last() == c2);
        assert(t.drop_last().last() == c1);
        assert(without_ws(t.drop_last()) == without_ws(h).push(c1));
        assert(without_ws(t) == without_ws(t.drop_last()).push(c2));
        assert(h.push(c1).push(c2) =~= t);
    }
}

/// Hexadecimal text reads back: the bytes the text of `data` (as
/// `to_hex_lower` writes it) describes are `data` itself.
pub proof fn law_hex_text_reads_back(data: Seq<u8>)
    ensures
        hex_pieces_ok(without_ws(crate::crypto::hex_lower(data))),
        hex_pieces(without_ws(crate::crypto::hex_lower(data))) == data,
    decreases data.len(),
{
    lemma_without_ws_hex(data);
    if data.len() > 0 {
        let init = data.drop_last();
        let x = data.last();
        law_hex_text_reads_back(init);
        lemma_without_ws_hex(init);
        lemma_hex_lower_len(init);
        lemma_hex_digit(x / 16);
        lemma_hex_digit(x % 16);
        let h = crate::crypto::hex_lower(init);
        let c1 = crate::crypto::hex_digit(x / 16);
        let c2 = crate::crypto::hex_digit(x % 16);
        let pair = seq![c1, c2];
        lemma_hex_pieces_append(h, pair);
        assert(pair.len() == 2);
        assert(hex_piece_ok(pair));
        assert(hex_pieces(pair) == seq![hex_piece_value(pair)]);
        assert(hex_piece_value(pair) == x) by {
            assert(pair[0] == c1 && pair[1] == c2);
            assert((x / 16) * 16 + x % 16 == x);
        }
        assert(init.push(x) =~= data);
        assert(init + seq![x] =~= data);
    } else {
        assert(crate::crypto::hex_lower(data) =~= Seq::<char>::empty());
        assert(hex_pieces(Seq::<char>::empty()) =~= Seq::<u8>::empty());
    }
}

} // verus!
