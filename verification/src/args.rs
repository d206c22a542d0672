//! The argument builder: pure assembly of the ordered command-line argument
//! list for GET and POST, with the fixed hardening flags appended exactly
//! once after the caller-derived arguments.

use vstd::prelude::*;
use crate::request::HttpHeader;

verus! {

/// The views of the strings in `args`, element by element.
pub open spec fn tokens_of(args: Seq<String>) -> Seq<Seq<char>> {
    Seq::new(args.len(), |i: int| args[i]@)
}

/// The single combined `name: value` token a header becomes.
pub open spec fn header_token(h: HttpHeader) -> Seq<char> {
    h.name@ + ": "@ + h.value@
}

/// Two consecutive tokens per header — the `-H` switch and the combined
/// token — in the order the headers were given.
pub open spec fn header_pair_tokens(hs: Seq<HttpHeader>) -> Seq<Seq<char>>
    decreases hs.len(),
{
    if hs.len() == 0 {
        Seq::empty()
    } else {
        seq!["-H"@, header_token(hs[0])] + header_pair_tokens(hs.drop_first())
    }
}

/// The fixed hardening flags, in order: a connect timeout of four seconds,
/// suppression of interactive progress output, and no automatic retries.
pub open spec fn hardening_tokens() -> Seq<Seq<char>> {
    seq!["--connect-timeout"@, "4"@, "--no-progress-meter"@, "--retry"@, "0"@]
}

/// The full argument list of a GET request against `url` writing to `out`.
pub open spec fn get_args(url: Seq<char>, hs: Seq<HttpHeader>, out: Seq<char>) -> Seq<Seq<char>> {
    seq![url, "-X"@, "GET"@] + header_pair_tokens(hs) + seq!["-o"@, out] + hardening_tokens()
}

/// The full argument list of a POST request against `url` sending the file
/// at `data` and writing to `out`.
pub open spec fn post_args(
    url: Seq<char>,
    hs: Seq<HttpHeader>,
    data: Seq<char>,
    out: Seq<char>,
) -> Seq<Seq<char>> {
    seq![url, "-X"@, "POST"@, "--data"@, "@"@ + data, "-o"@, out] + header_pair_tokens(hs)
        + hardening_tokens()
}

proof fn lemma_header_pairs_snoc(hs: Seq<HttpHeader>, h: HttpHeader)
    ensures
        header_pair_tokens(hs.push(h)) == header_pair_tokens(hs) + seq![
            "-H"@,
            header_token(h),
        ],
    decreases hs.len(),
{
    let whole = hs.push(h);
    if hs.len() == 0 {
        assert(whole[0] == h);
        assert(whole.drop_first() =~= Seq::<HttpHeader>::empty());
        assert(header_pair_tokens(whole.drop_first()) =~= Seq::<Seq<char>>::empty());
        assert(header_pair_tokens(hs) =~= Seq::<Seq<char>>::empty());
        assert(header_pair_tokens(whole) =~= header_pair_tokens(hs) + seq![
            "-H"@,
            header_token(h),
        ]);
    } else {
        lemma_header_pairs_snoc(hs.drop_first(), h);
        assert(whole.drop_first() =~= hs.drop_first().push(h));
        assert(seq!["-H"@, header_token(hs[0])] + (header_pair_tokens(hs.drop_first()) + seq![
            "-H"@,
            header_token(h),
        ]) =~= header_pair_tokens(hs) + seq!["-H"@, header_token(h)]);
    }
}

/// Every header of `hs` stands in `header_pair_tokens(hs)` at its own pair
/// of positions: the `-H` switch at `2 * i`, the combined token at
/// `2 * i + 1`.
pub proof fn lemma_header_pair_positions(hs: Seq<HttpHeader>)
    ensures
        header_pair_tokens(hs).len() == 2 * hs.len(),
        forall|i: int|
            #![trigger header_pair_tokens(hs)[2 * i]]
            0 <= i < hs.len() ==> header_pair_tokens(hs)[2 * i] == "-H"@
                && header_pair_tokens(hs)[2 * i + 1] == header_token(hs[i]),
    decreases hs.len(),
{
    if hs.len() > 0 {
        lemma_header_pair_positions(hs.drop_first());
        let pair = seq!["-H"@, header_token(hs[0])];
        let rest = header_pair_tokens(hs.drop_first());
        assert(header_pair_tokens(hs) == pair + rest);
        assert(header_pair_tokens(hs).len() == 2 * hs.len());
        assert forall|i: int|
            #![trigger header_pair_tokens(hs)[2 * i]]
            0 <= i < hs.len() implies header_pair_tokens(hs)[2 * i] == "-H"@
            && header_pair_tokens(hs)[2 * i + 1] == header_token(hs[i]) by {
            if i == 0 {
                assert(header_pair_tokens(hs)[0] == pair[0]);
                assert(header_pair_tokens(hs)[1] == pair[1]);
            } else {
                let j = i - 1;
                assert(0 <= j < hs.drop_first().len());
                assert(rest[2 * j] == "-H"@);
                assert(rest[2 * j + 1] == header_token(hs.drop_first()[j]));
                assert(header_pair_tokens(hs)[2 * i] == rest[2 * j]);
                assert(header_pair_tokens(hs)[2 * i + 1] == rest[2 * j + 1]);
                assert(hs.drop_first()[j] == hs[i]);
            }
        }
    }
}

/// Whether `t` is one of the fixed hardening flags.
pub open spec fn is_hardening_token(t: Seq<char>) -> bool {
    hardening_tokens().contains(t)
}

proof fn lemma_hardening_elements()
    ensures
        hardening_tokens().len() == 5,
        hardening_tokens()[0] == "--connect-timeout"@,
        hardening_tokens()[1] == "4"@,
        hardening_tokens()[2] == "--no-progress-meter"@,
        hardening_tokens()[3] == "--retry"@,
        hardening_tokens()[4] == "0"@,
        "--connect-timeout"@.len() == 17,
        "4"@.len() == 1,
        "--no-progress-meter"@.len() == 19,
        "--retry"@.len() == 7,
        "0"@.len() == 1,
        "4"@[0] == '4',
        "0"@[0] == '0',
        "--connect-timeout"@[0] == '-',
        "--no-progress-meter"@[0] == '-',
        "--retry"@[0] == '-',
{
    reveal_strlit("--connect-timeout");
    reveal_strlit("4");
    reveal_strlit("--no-progress-meter");
    reveal_strlit("--retry");
    reveal_strlit("0");
}

proof fn lemma_not_hardening_by_len(t: Seq<char>)
    requires
        t.len() != 17,
        t.len() != 1,
        t.len() != 19,
        t.len() != 7,
    ensures
        !is_hardening_token(t),
{
    lemma_hardening_elements();
    assert forall|i: int| 0 <= i < hardening_tokens().len() implies hardening_tokens()[i] != t by {
        assert(hardening_tokens()[i].len() != t.len());
    }
}

proof fn lemma_hardening_flags_char_free()
    ensures
        forall|i: int, j: int|
            #![trigger hardening_tokens()[i][j]]
            0 <= i < hardening_tokens().len() && 0 <= j < hardening_tokens()[i].len()
                ==> hardening_tokens()[i][j] != ':' && hardening_tokens()[i][j] != '/',
{
    lemma_hardening_elements();
    reveal_strlit("--connect-timeout");
    reveal_strlit("4");
    reveal_strlit("--no-progress-meter");
    reveal_strlit("--retry");
    reveal_strlit("0");
    assert forall|i: int, j: int|
        #![trigger hardening_tokens()[i][j]]
        0 <= i < hardening_tokens().len() && 0 <= j < hardening_tokens()[i].len()
            implies hardening_tokens()[i][j] != ':' && hardening_tokens()[i][j] != '/' by {
        if i == 0 {
            assert("--connect-timeout"@[j] != ':' && "--connect-timeout"@[j] != '/');
        } else if i == 1 {
            assert("4"@[j] != ':' && "4"@[j] != '/');
        } else if i == 2 {
            assert("--no-progress-meter"@[j] != ':' && "--no-progress-meter"@[j] != '/');
        } else if i == 3 {
            assert("--retry"@[j] != ':' && "--retry"@[j] != '/');
        } else {
            assert("0"@[j] != ':' && "0"@[j] != '/');
        }
    }
}

/// A token holding a `:` or a `/` anywhere is never a hardening flag.
pub proof fn lemma_separator_token_not_hardening(t: Seq<char>, k: int)
    requires
        0 <= k < t.len(),
        t[k] == ':' || t[k] == '/',
    ensures
        !is_hardening_token(t),
{
    lemma_hardening_flags_char_free();
    lemma_hardening_elements();
    assert forall|i: int| 0 <= i < hardening_tokens().len() implies hardening_tokens()[i] != t by {
        if hardening_tokens()[i] == t {
            assert(hardening_tokens()[i][k] != ':' && hardening_tokens()[i][k] != '/');
        }
    }
}

/// A combined header token always holds `: ` after the name, so it is never
/// a hardening flag, whatever the header says.
pub proof fn lemma_header_token_not_hardening(h: HttpHeader)
    ensures
        !is_hardening_token(header_token(h)),
{
    reveal_strlit(": ");
    let t = header_token(h);
    let k = h.name@.len() as int;
    assert((h.name@ + ": "@)[k] == ": "@[0]);
    assert(t[k] == (h.name@ + ": "@)[k]);
    lemma_separator_token_not_hardening(t, k);
}

/// A token whose first character is not `-`, `4` or `0` is never a
/// hardening flag.
pub proof fn lemma_not_hardening_by_head(t: Seq<char>)
    requires
        t.len() > 0,
        t[0] != '-',
        t[0] != '4',
        t[0] != '0',
    ensures
        !is_hardening_token(t),
{
    lemma_hardening_elements();
    assert forall|i: int| 0 <= i < hardening_tokens().len() implies hardening_tokens()[i] != t by {
        assert(hardening_tokens()[i][0] != t[0]);
    }
}

proof fn lemma_pairs_no_hardening(hs: Seq<HttpHeader>)
    requires
        forall|i: int| 0 <= i < hs.len() ==> !is_hardening_token(header_token(hs[i])),
    ensures
        forall|k: int|
            0 <= k < header_pair_tokens(hs).len() ==> !is_hardening_token(
                header_pair_tokens(hs)[k],
            ),
    decreases hs.len(),
{
    if hs.len() > 0 {
        assert forall|i: int| 0 <= i < hs.drop_first().len() implies !is_hardening_token(
            header_token(hs.drop_first()[i]),
        ) by {
            assert(hs.drop_first()[i] == hs[i + 1]);
        }
        lemma_pairs_no_hardening(hs.drop_first());
        let pair = seq!["-H"@, header_token(hs[0])];
        let rest = header_pair_tokens(hs.drop_first());
        assert forall|k: int| 0 <= k < header_pair_tokens(hs).len() implies !is_hardening_token(
            header_pair_tokens(hs)[k],
        ) by {
            if k == 0 {
                assert(header_pair_tokens(hs)[0] == "-H"@);
                reveal_strlit("-H");
                lemma_not_hardening_by_len("-H"@);
            } else if k == 1 {
                assert(header_pair_tokens(hs)[1] == header_token(hs[0]));
            } else {
                assert(header_pair_tokens(hs)[k] == rest[k - 2]);
            }
        }
    }
}

/// Every constructed argument list carries the fixed hardening flags exactly
/// once: they are its last five tokens, standing after every caller-derived
/// and kind-specific argument, and — as long as neither the URL, nor the
/// resolved output path, nor any combined header token is itself spelled
/// like a hardening flag — no earlier token equals one of them.
pub proof fn lemma_hardening_once_get(url: Seq<char>, hs: Seq<HttpHeader>, out: Seq<char>)
    requires
        !is_hardening_token(url),
        !is_hardening_token(out),
        forall|i: int| 0 <= i < hs.len() ==> !is_hardening_token(header_token(hs[i])),
    ensures
        get_args(url, hs, out).len() == 2 * hs.len() + 10,
        get_args(url, hs, out).subrange(2 * hs.len() as int + 5, 2 * hs.len() as int + 10)
            == hardening_tokens(),
        forall|k: int|
            0 <= k < 2 * hs.len() + 5 ==> !is_hardening_token(#[trigger] get_args(url, hs, out)[k]),
{
    lemma_header_pair_positions(hs);
    lemma_pairs_no_hardening(hs);
    let s3 = seq![url, "-X"@, "GET"@];
    let p = header_pair_tokens(hs);
    let s2 = seq!["-o"@, out];
    let a = get_args(url, hs, out);
    let m = hs.len() as int;
    assert(a == s3 + p + s2 + hardening_tokens());
    assert(a.len() == 2 * m + 10);
    assert(a.subrange(2 * m + 5, 2 * m + 10) =~= hardening_tokens());
    assert forall|k: int| 0 <= k < 2 * m + 5 implies !is_hardening_token(a[k]) by {
        reveal_strlit("-X");
        reveal_strlit("GET");
        reveal_strlit("-o");
        if k == 0 {
            assert(a[k] == url);
        } else if k == 1 {
            assert(a[k] == "-X"@);
            lemma_not_hardening_by_len("-X"@);
        } else if k == 2 {
            assert(a[k] == "GET"@);
            lemma_not_hardening_by_len("GET"@);
        } else if k < 3 + 2 * m {
            assert(a[k] == p[k - 3]);
        } else if k == 3 + 2 * m {
            assert(a[k] == "-o"@);
            lemma_not_hardening_by_len("-o"@);
        } else {
            assert(a[k] == out);
        }
    }
}

/// The POST counterpart of `lemma_hardening_once_get`; the `--data` token
/// starts with `@`, so it can never be spelled like a hardening flag.
pub proof fn lemma_hardening_once_post(
    url: Seq<char>,
    hs: Seq<HttpHeader>,
    data: Seq<char>,
    out: Seq<char>,
)
    requires
        !is_hardening_token(url),
        !is_hardening_token(out),
        forall|i: int| 0 <= i < hs.len() ==> !is_hardening_token(header_token(hs[i])),
    ensures
        post_args(url, hs, data, out).len() == 2 * hs.len() + 12,
        post_args(url, hs, data, out).subrange(2 * hs.len() as int + 7, 2 * hs.len() as int + 12)
            == hardening_tokens(),
        forall|k: int|
            0 <= k < 2 * hs.len() + 7 ==> !is_hardening_token(
                #[trigger] post_args(url, hs, data, out)[k],
            ),
{
    lemma_header_pair_positions(hs);
    lemma_pairs_no_hardening(hs);
    let s7 = seq![url, "-X"@, "POST"@, "--data"@, "@"@ + data, "-o"@, out];
    let p = header_pair_tokens(hs);
    let a = post_args(url, hs, data, out);
    let m = hs.len() as int;
    assert(a == s7 + p + hardening_tokens());
    assert(a.len() == 2 * m + 12);
    assert(a.subrange(2 * m + 7, 2 * m + 12) =~= hardening_tokens());
    assert forall|k: int| 0 <= k < 2 * m + 7 implies !is_hardening_token(a[k]) by {
        reveal_strlit("-X");
        reveal_strlit("POST");
        reveal_strlit("--data");
        reveal_strlit("-o");
        reveal_strlit("@");
        if k < 7 {
            assert(a[k] == s7[k]);
            if k == 1 {
                lemma_not_hardening_by_len("-X"@);
            } else if k == 2 {
                lemma_not_hardening_by_len("POST"@);
            } else if k == 3 {
                lemma_not_hardening_by_len("--data"@);
            } else if k == 4 {
                assert(("@"@ + data)[0] == '@');
                lemma_not_hardening_by_head("@"@ + data);
            } else if k == 5 {
                lemma_not_hardening_by_len("-o"@);
            }
        } else {
            assert(a[k] == p[k - 7]);
        }
    }
}

/// Whether the `-H` pairs of `a`, starting at position `off`, spell out the
/// headers `hs` in their own order: the pair of `hs[i]` stands at positions
/// `off + 2i` and `off + 2i + 1`.
pub open spec fn header_pairs_in_order(a: Seq<Seq<char>>, hs: Seq<HttpHeader>, off: int) -> bool {
    forall|i: int|
        #![trigger hs[i]]
        0 <= i < hs.len() ==> a[off + 2 * i] == "-H"@ && a[off + 2 * i + 1] == header_token(hs[i])
}

/// The order of `-H` pairs in a built argument list matches the input header
/// order exactly: in a GET list the pair of `headers[i]` stands at positions
/// `3 + 2i` and `4 + 2i`, in a POST list at `7 + 2i` and `8 + 2i`.
pub proof fn lemma_header_order(
    url: Seq<char>,
    hs: Seq<HttpHeader>,
    data: Seq<char>,
    out: Seq<char>,
)
    ensures
        header_pairs_in_order(get_args(url, hs, out), hs, 3),
        header_pairs_in_order(post_args(url, hs, data, out), hs, 7),
{
    lemma_header_pair_positions(hs);
    let p = header_pair_tokens(hs);
    let g = get_args(url, hs, out);
    let q = post_args(url, hs, data, out);
    let m = hs.len() as int;
    assert forall|i: int| #![trigger hs[i]] 0 <= i < m implies g[3 + 2 * i] == "-H"@ && g[4 + 2
        * i] == header_token(hs[i]) by {
        assert(p[2 * i] == "-H"@);
        assert(p[2 * i + 1] == header_token(hs[i]));
        assert(g[3 + 2 * i] == p[2 * i]);
        assert(g[4 + 2 * i] == p[2 * i + 1]);
    }
    assert forall|i: int| #![trigger hs[i]] 0 <= i < m implies q[7 + 2 * i] == "-H"@ && q[8 + 2
        * i] == header_token(hs[i]) by {
        assert(p[2 * i] == "-H"@);
        assert(p[2 * i + 1] == header_token(hs[i]));
        assert(q[7 + 2 * i] == p[2 * i]);
        assert(q[8 + 2 * i] == p[2 * i + 1]);
    }
}

/// The `-H` token pairs, one pair per header, in the headers' own order.
pub fn format_header_args(headers: &Vec<HttpHeader>) -> (r: Vec<String>)
    ensures
        tokens_of(r@) == header_pair_tokens(headers@),
{
    let mut r: Vec<String> = Vec::new();
    proof {
        assert(tokens_of(r@) =~= header_pair_tokens(headers@.subrange(0, 0)));
    }
    let mut i: usize = 0;
    while i < headers.len()
        invariant
            i <= headers@.len(),
            tokens_of(r@) == header_pair_tokens(headers@.subrange(0, i as int)),
        decreases headers@.len() - i,
    {
        let h = &headers[i];
        let mut token = h.name.clone();
        token.append(": ");
        token.append(h.value.as_str());
        r.push(String::from_str("-H"));
        r.push(token);
        proof {
            let seen = headers@.subrange(0, i as int);
            lemma_header_pairs_snoc(seen, headers@[i as int]);
            assert(headers@.subrange(0, i + 1) =~= seen.push(headers@[i as int]));
            assert(tokens_of(r@) =~= header_pair_tokens(seen) + seq![
                "-H"@,
                header_token(headers@[i as int]),
            ]);
        }
        i += 1;
    }
    proof {
        assert(headers@.subrange(0, headers@.len() as int) =~= headers@);
    }
    r
}

/// Appends the fixed hardening flags, exactly once, after everything already
/// in `args`.
pub fn append_hardening(args: &mut Vec<String>)
    ensures
        tokens_of(final(args)@) == tokens_of(old(args)@) + hardening_tokens(),
{
    args.push(String::from_str("--connect-timeout"));
    args.push(String::from_str("4"));
    args.push(String::from_str("--no-progress-meter"));
    args.push(String::from_str("--retry"));
    args.push(String::from_str("0"));
    proof {
        assert(tokens_of(args@) =~= tokens_of(old(args)@) + hardening_tokens());
    }
}

/// The ordered argument list of a GET request, exactly `get_args`.
pub fn build_get_args(url: String, headers: &Vec<HttpHeader>, output_path: String) -> (r: Vec<
    String,
>)
    ensures
        tokens_of(r@) == get_args(url@, headers@, output_path@),
{
    let ghost url_chars = url@;
    let ghost out_chars = output_path@;
    let mut r: Vec<String> = Vec::new();
    r.push(url);
    r.push(String::from_str("-X"));
    r.push(String::from_str("GET"));
    let mut pairs = format_header_args(headers);
    r.append(&mut pairs);
    r.push(String::from_str("-o"));
    r.push(output_path);
    append_hardening(&mut r);
    proof {
        assert(tokens_of(r@) =~= get_args(url_chars, headers@, out_chars));
    }
    r
}

/// The ordered argument list of a POST request, exactly `post_args`.
pub fn build_post_args(
    url: String,
    headers: &Vec<HttpHeader>,
    data_path: String,
    output_path: String,
) -> (r: Vec<String>)
    ensures
        tokens_of(r@) == post_args(url@, headers@, data_path@, output_path@),
{
    let ghost url_chars = url@;
    let ghost data_chars = data_path@;
    let ghost out_chars = output_path@;
    let mut at_data = String::from_str("@");
    at_data.append(data_path.as_str());
    let mut r: Vec<String> = Vec::new();
    r.push(url);
    r.push(String::from_str("-X"));
    r.push(String::from_str("POST"));
    r.push(String::from_str("--data"));
    r.push(at_data);
    r.push(String::from_str("-o"));
    r.push(output_path);
    let mut pairs = format_header_args(headers);
    r.append(&mut pairs);
    append_hardening(&mut r);
    proof {
        assert(tokens_of(r@) =~= post_args(url_chars, headers@, data_chars, out_chars));
    }
    r
}

} // verus!
