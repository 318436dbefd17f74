use vstd::prelude::*;
use vstd::utf8::*;
use vstd::string::StringSliceAdditionalSpecFns;

use crate::text::{
    chars_of, contains, contains_chars, find, find_bytes, lemma_find, matches_at, replace_all,
    replace_chars, string_from_chars,
};

verus! {

broadcast use vstd::utf8::encode_utf8_valid_utf8;

/// The byte of `/`.
pub open spec fn slash() -> Seq<u8> {
    seq![47u8]
}

/// The bytes of `clip/`.
pub open spec fn clip_tag() -> Seq<u8> {
    seq![99u8, 108u8, 105u8, 112u8, 47u8]
}

/// The bytes of `song/`.
pub open spec fn song_tag() -> Seq<u8> {
    seq![115u8, 111u8, 110u8, 103u8, 47u8]
}

/// The bytes of `track/`.
pub open spec fn track_tag() -> Seq<u8> {
    seq![116u8, 114u8, 97u8, 99u8, 107u8, 47u8]
}

/// The UTF-8 bytes of a URL, in which every position below is counted.
pub open spec fn url_bytes(url: Seq<char>) -> Seq<u8> {
    encode_utf8(url)
}

/// The path segment that starts at byte `off` of `b`: the text up to the next `/`,
/// or `None` when no `/` follows.
pub open spec fn segment_at(b: Seq<u8>, off: int) -> Option<Seq<char>> {
    let rest = b.subrange(off, b.len() as int);
    match find(rest, slash()) {
        Some(p) => Some(decode_utf8(rest.subrange(0, p as int))),
        None => None,
    }
}

/// The text that follows byte `off` of `b`.
pub open spec fn text_from(b: Seq<u8>, off: int) -> Seq<char> {
    decode_utf8(b.subrange(off, b.len() as int))
}

/// True when the XPath of the first `/` can be taken: the byte twelve places
/// after the first `/` lies inside the URL and starts a character.
pub open spec fn href_offset_ok(url: Seq<char>) -> bool {
    let b = url_bytes(url);
    match find(b, slash()) {
        Some(i) => i + 12 <= b.len() && is_char_boundary(b, (i + 12) as int),
        None => true,
    }
}

/// The XPath expression that selects a link to the part of `url` that
/// follows the twelve bytes after its first `/`.
pub open spec fn href_value(url: Seq<char>) -> Seq<char> {
    let b = url_bytes(url);
    match find(b, slash()) {
        Some(i) => "//a[@href='"@ + text_from(b, (i + 12) as int) + "']"@,
        None => "String is not a valid URL"@,
    }
}

/// How a footage file is named after a URL segment: where the segment holds a
/// `-`, each `-` becomes a space, each run of three spaces (scanned from the
/// left) becomes ` - `, and then each pair of spaces becomes one space; a
/// segment without `-` keeps its form.
pub open spec fn footage_name_form(seg: Seq<char>) -> Seq<char> {
    if contains(seg, seq!['-']) {
        replace_all(
            replace_all(
                replace_all(seg, seq!['-'], seq![' ']),
                seq![' ', ' ', ' '],
                seq![' ', '-', ' '],
            ),
            seq![' ', ' '],
            seq![' '],
        )
    } else {
        seg
    }
}

/// The footage id of a URL: the segment after the first `clip/`.
pub open spec fn footage_id(url: Seq<char>) -> Seq<char> {
    let b = url_bytes(url);
    match find(b, clip_tag()) {
        Some(i) => match segment_at(b, (i + 5) as int) {
            Some(seg) => seg,
            None => "Invalid URL: No slash after 'clip/'"@,
        },
        None => "String is not a valid URL"@,
    }
}

/// The file name of the footage a URL points to: the segment after the first
/// `song/`, else after the first `track/`, in the form of `footage_name_form`.
pub open spec fn footage_name(url: Seq<char>) -> Seq<char> {
    let b = url_bytes(url);
    match find(b, song_tag()) {
        Some(i) => match segment_at(b, (i + 5) as int) {
            Some(seg) => footage_name_form(seg),
            None => "Invalid URL: No slash after 'clip/'"@,
        },
        None => match find(b, track_tag()) {
            Some(i) => match segment_at(b, (i + 6) as int) {
                Some(seg) => footage_name_form(seg),
                None => "Invalid URL: No slash after 'track/'"@,
            },
            None => "URL doesn't contain valid URL"@,
        },
    }
}

/// True when `s` holds no `-`.
pub open spec fn no_dash(s: Seq<char>) -> bool {
    forall|i: int| 0 <= i < s.len() ==> s[i] != '-'
}

/// True when every `-` in `s` has a space right after it.
pub open spec fn dash_followed(s: Seq<char>) -> bool {
    forall|i: int| 0 <= i < s.len() && #[trigger] s[i] == '-' ==> i + 1 < s.len() && s[i + 1] == ' '
}

/// True when every `-` in `s` after the first character has a space right
/// before it.
pub open spec fn dash_preceded_after_start(s: Seq<char>) -> bool {
    forall|i: int| 0 < i < s.len() && #[trigger] s[i] == '-' ==> s[i - 1] == ' '
}

/// Turning every `-` into a space leaves no `-`.
proof fn lemma_map_dash_no_dash(s: Seq<char>)
    ensures
        no_dash(replace_all(s, seq!['-'], seq![' '])),
    decreases s.len(),
{
    if s.len() > 0 {
        let tail = s.skip(1);
        lemma_map_dash_no_dash(tail);
        let r = replace_all(s, seq!['-'], seq![' ']);
        let rt = replace_all(tail, seq!['-'], seq![' ']);
        if s.take(1) =~= seq!['-'] {
            assert(r == seq![' '] + rt);
        } else {
            assert(s[0] != '-') by {
                if s[0] == '-' {
                    assert(s.take(1) =~= seq!['-']);
                }
            }
            assert(r == seq![s[0]] + rt);
        }
        assert forall|i: int| 0 <= i < r.len() implies r[i] != '-' by {
            if i > 0 {
                assert(r[i] == rt[i - 1]);
            }
        }
    }
}

/// Replacing each run of three spaces by ` - ` in a text without `-` puts
/// every `-` between two spaces.
proof fn lemma_spaced_dashes(s: Seq<char>)
    requires
        no_dash(s),
    ensures
        dash_followed(replace_all(s, seq![' ', ' ', ' '], seq![' ', '-', ' '])),
        dash_preceded_after_start(replace_all(s, seq![' ', ' ', ' '], seq![' ', '-', ' '])),
        replace_all(s, seq![' ', ' ', ' '], seq![' ', '-', ' ']).len() > 0 ==> replace_all(
            s,
            seq![' ', ' ', ' '],
            seq![' ', '-', ' '],
        )[0] != '-',
    decreases s.len(),
{
    let p = seq![' ', ' ', ' '];
    let q = seq![' ', '-', ' '];
    let r = replace_all(s, p, q);
    if s.len() > 0 {
        if p.len() <= s.len() && s.take(3) =~= p {
            let rest = s.skip(3);
            assert(no_dash(rest)) by {
                assert forall|i: int| 0 <= i < rest.len() implies rest[i] != '-' by {
                    assert(rest[i] == s[i + 3]);
                }
            }
            lemma_spaced_dashes(rest);
            let rr = replace_all(rest, p, q);
            assert(r == q + rr);
            assert forall|i: int| 0 <= i < r.len() && #[trigger] r[i] == '-' implies i + 1 < r.len()
                && r[i + 1] == ' ' by {
                if i >= 3 {
                    assert(r[i] == rr[i - 3]);
                    assert(r[i + 1] == rr[i - 2]);
                }
            }
            assert forall|i: int| 0 < i < r.len() && #[trigger] r[i] == '-' implies r[i - 1]
                == ' ' by {
                if i >= 3 {
                    assert(r[i] == rr[i - 3]);
                    if i > 3 {
                        assert(r[i - 1] == rr[i - 4]);
                    }
                }
            }
        } else {
            let tail = s.skip(1);
            assert(no_dash(tail)) by {
                assert forall|i: int| 0 <= i < tail.len() implies tail[i] != '-' by {
                    assert(tail[i] == s[i + 1]);
                }
            }
            lemma_spaced_dashes(tail);
            let rt = replace_all(tail, p, q);
            assert(r == seq![s[0]] + rt);
            assert forall|i: int| 0 <= i < r.len() && #[trigger] r[i] == '-' implies i + 1 < r.len()
                && r[i + 1] == ' ' by {
                if i >= 1 {
                    assert(r[i] == rt[i - 1]);
                    assert(r[i + 1] == rt[i]);
                }
            }
            assert forall|i: int| 0 < i < r.len() && #[trigger] r[i] == '-' implies r[i - 1]
                == ' ' by {
                assert(r[i] == rt[i - 1]);
                if i > 1 {
                    assert(r[i - 1] == rt[i - 2]);
                }
            }
        }
    }
}

/// Halving runs of two spaces keeps a space next to every `-`, and keeps the
/// first character.
proof fn lemma_halving_keeps_spacing(s: Seq<char>)
    requires
        dash_followed(s),
        dash_preceded_after_start(s),
    ensures
        dash_followed(replace_all(s, seq![' ', ' '], seq![' '])),
        dash_preceded_after_start(replace_all(s, seq![' ', ' '], seq![' '])),
        s.len() > 0 ==> replace_all(s, seq![' ', ' '], seq![' ']).len() > 0 && replace_all(
            s,
            seq![' ', ' '],
            seq![' '],
        )[0] == s[0],
    decreases s.len(),
{
    let p = seq![' ', ' '];
    let q = seq![' '];
    let r = replace_all(s, p, q);
    if s.len() > 0 {
        if p.len() <= s.len() && s.take(2) =~= p {
            let rest = s.skip(2);
            assert(dash_followed(rest)) by {
                assert forall|i: int| 0 <= i < rest.len() && #[trigger] rest[i] == '-' implies i + 1
                    < rest.len() && rest[i + 1] == ' ' by {
                    assert(rest[i] == s[i + 2]);
                    assert(s[i + 2] == '-');
                }
            }
            assert(dash_preceded_after_start(rest)) by {
                assert forall|i: int| 0 < i < rest.len() && #[trigger] rest[i] == '-' implies rest[i
                    - 1] == ' ' by {
                    assert(rest[i] == s[i + 2]);
                    assert(s[i + 2] == '-');
                }
            }
            lemma_halving_keeps_spacing(rest);
            let rr = replace_all(rest, p, q);
            assert(s[0] == ' ') by {
                assert(s.take(2)[0] == s[0]);
            }
            assert(s[1] == ' ') by {
                assert(s.take(2)[1] == s[1]);
            }
            assert(r == q + rr);
            assert forall|i: int| 0 <= i < r.len() && #[trigger] r[i] == '-' implies i + 1 < r.len()
                && r[i + 1] == ' ' by {
                if i >= 1 {
                    assert(r[i] == rr[i - 1]);
                    assert(r[i + 1] == rr[i]);
                }
            }
            assert forall|i: int| 0 < i < r.len() && #[trigger] r[i] == '-' implies r[i - 1]
                == ' ' by {
                assert(r[i] == rr[i - 1]);
                if i > 1 {
                    assert(r[i - 1] == rr[i - 2]);
                }
            }
        } else {
            let tail = s.skip(1);
            assert(dash_followed(tail)) by {
                assert forall|i: int| 0 <= i < tail.len() && #[trigger] tail[i] == '-' implies i + 1
                    < tail.len() && tail[i + 1] == ' ' by {
                    assert(tail[i] == s[i + 1]);
                    assert(s[i + 1] == '-');
                }
            }
            assert(dash_preceded_after_start(tail)) by {
                assert forall|i: int| 0 < i < tail.len() && #[trigger] tail[i] == '-' implies tail[i
                    - 1] == ' ' by {
                    assert(tail[i] == s[i + 1]);
                    assert(s[i + 1] == '-');
                }
            }
            lemma_halving_keeps_spacing(tail);
            let rt = replace_all(tail, p, q);
            assert(r == seq![s[0]] + rt);
            assert forall|i: int| 0 <= i < r.len() && #[trigger] r[i] == '-' implies i + 1 < r.len()
                && r[i + 1] == ' ' by {
                if i >= 1 {
                    assert(r[i] == rt[i - 1]);
                    assert(r[i + 1] == rt[i]);
                } else {
                    assert(s[0] == '-');
                    assert(s[1] == ' ');
                    assert(rt[0] == tail[0]);
                }
            }
            assert forall|i: int| 0 < i < r.len() && #[trigger] r[i] == '-' implies r[i - 1]
                == ' ' by {
                assert(r[i] == rt[i - 1]);
                if i > 1 {
                    assert(r[i - 1] == rt[i - 2]);
                } else {
                    assert(rt[0] == tail[0]);
                    assert(s[1] == '-');
                }
            }
        }
    }
}

/// The dashes of a URL segment do not survive into the file name as word
/// joiners: in the name made from a segment with a `-`, every `-` that
/// remains stands between two spaces (it is the ` - ` that a run of three
/// dashes becomes).
pub proof fn law_dashes_become_spaces(seg: Seq<char>)
    requires
        contains(seg, seq!['-']),
    ensures
        forall|i: int|
            0 <= i < footage_name_form(seg).len() && #[trigger] footage_name_form(seg)[i] == '-'
                ==> 0 < i && i + 1 < footage_name_form(seg).len() && footage_name_form(seg)[i - 1]
                == ' ' && footage_name_form(seg)[i + 1] == ' ',
{
    let e1 = replace_all(seg, seq!['-'], seq![' ']);
    lemma_map_dash_no_dash(seg);
    let e2 = replace_all(e1, seq![' ', ' ', ' '], seq![' ', '-', ' ']);
    lemma_spaced_dashes(e1);
    lemma_halving_keeps_spacing(e2);
    let name = footage_name_form(seg);
    assert(name == replace_all(e2, seq![' ', ' '], seq![' ']));
    assert forall|i: int| 0 <= i < name.len() && #[trigger] name[i] == '-' implies 0 < i && i + 1
        < name.len() && name[i - 1] == ' ' && name[i + 1] == ' ' by {
        if i == 0 {
            assert(name[0] == e2[0]);
        }
    }
}

/// The characters of a `str` are those that its bytes encode.
proof fn lemma_str_decodes(s: &str)
    ensures
        s@ == decode_utf8(s.spec_bytes()),
        valid_utf8(s.spec_bytes()),
{
    encode_utf8_decode_utf8(s@);
}

/// A byte below 0x80 never continues a character.
proof fn lemma_ascii_is_boundary(b: Seq<u8>, k: int)
    requires
        valid_utf8(b),
        0 <= k < b.len(),
        b[k] < 0x80,
    ensures
        is_char_boundary(b, k),
{
    is_char_boundary_iff_not_is_continuation_byte(b, k);
}

/// A character starts right after an ASCII byte.
proof fn lemma_boundary_after_ascii(b: Seq<u8>, k: int)
    requires
        valid_utf8(b),
        0 <= k < b.len(),
        b[k] < 0x80,
    ensures
        is_char_boundary(b, k + 1),
{
    lemma_ascii_is_boundary(b, k);
    if k + 1 == b.len() {
        is_char_boundary_start_end_of_seq(b);
    } else {
        valid_utf8_split(b, k);
        let s = b.subrange(k, b.len() as int);
        assert(valid_utf8(s));
        assert(length_of_first_scalar(s) == 1);
        let pop = pop_first_scalar(s);
        assert(pop[0] == b[k + 1]);
        assert(is_char_boundary(pop, 0));
        is_char_boundary_iff_not_is_continuation_byte(pop, 0);
        is_char_boundary_iff_not_is_continuation_byte(b, k + 1);
    }
}

/// The text of `s` from byte `at` on.
fn suffix_from(s: &str, at: usize) -> (r: &str)
    requires
        at <= s.spec_bytes().len(),
        is_char_boundary(s.spec_bytes(), at as int),
    ensures
        r.spec_bytes() == s.spec_bytes().subrange(at as int, s.spec_bytes().len() as int),
        r@ == text_from(s.spec_bytes(), at as int),
{
    proof {
        lemma_str_decodes(s);
    }
    let (_, r) = s.split_at(at);
    proof {
        lemma_str_decodes(r);
    }
    r
}

/// The text of `s` before byte `at`.
fn prefix_to(s: &str, at: usize) -> (r: &str)
    requires
        at <= s.spec_bytes().len(),
        is_char_boundary(s.spec_bytes(), at as int),
    ensures
        r@ == decode_utf8(s.spec_bytes().subrange(0, at as int)),
{
    proof {
        lemma_str_decodes(s);
    }
    let (r, _) = s.split_at(at);
    proof {
        lemma_str_decodes(r);
    }
    r
}

/// The segment of `s` up to its first `/`, if it has one.
fn segment_of(s: &str) -> (r: Option<&str>)
    ensures
        r matches Some(x) ==> segment_at(s.spec_bytes(), 0) == Some(x@),
        r is None ==> segment_at(s.spec_bytes(), 0) is None,
{
    let b = s.as_bytes();
    let sl = vec![47u8];
    assert(sl@ == slash());
    let ghost whole = s.spec_bytes();
    assert(whole.subrange(0, whole.len() as int) =~= whole);
    match find_bytes(b, sl.as_slice()) {
        Some(p) => {
            proof {
                lemma_find(whole, slash());
                assert(whole[p as int] == 47u8);
                lemma_str_decodes(s);
                lemma_ascii_is_boundary(whole, p as int);
            }
            Some(prefix_to(s, p))
        },
        None => None,
    }
}

/// Builds `prefix` + `middle` + `suffix`.
fn concat3(prefix: &str, middle: &str, suffix: &str) -> (r: String)
    ensures
        r@ == prefix@ + middle@ + suffix@,
{
    let mut r = prefix.to_owned();
    r.append(middle);
    r.append(suffix);
    r
}

/// The XPath that finds the link to a footage in the user's collection
/// (`//a[@href='` + the URL from twelve bytes after its first `/` + `']`).
pub fn get_href_value(user_url: &str) -> (r: String)
    requires
        href_offset_ok(user_url@),
    ensures
        r@ == href_value(user_url@),
{
    let b = user_url.as_bytes();
    let blen = b.len();
    let sl = vec![47u8];
    assert(sl@ == slash());
    match find_bytes(b, sl.as_slice()) {
        Some(i) => {
            let rest = suffix_from(user_url, i + 12);
            concat3("//a[@href='", rest, "']")
        },
        None => "String is not a valid URL".to_owned(),
    }
}

/// `get_href_value` where the URL allows it; `None` where the twelve bytes
/// after the first `/` run past the URL or end inside a character.
pub fn href_value_checked(user_url: &str) -> (r: Option<String>)
    ensures
        r is Some <==> href_offset_ok(user_url@),
        r matches Some(x) ==> x@ == href_value(user_url@),
{
    let b = user_url.as_bytes();
    let blen = b.len();
    let sl = vec![47u8];
    assert(sl@ == slash());
    match find_bytes(b, sl.as_slice()) {
        Some(i) => {
            if i <= b.len() && 12 <= b.len() - i && user_url.is_char_boundary(i + 12) {
                Some(get_href_value(user_url))
            } else {
                None
            }
        },
        None => Some(get_href_value(user_url)),
    }
}

/// The byte position of the first `clip/` in a URL, if it has one: the index
/// that is reported when a footage id is taken from the URL.
pub fn clip_index(user_url: &str) -> (r: Option<usize>)
    ensures
        match find(url_bytes(user_url@), clip_tag()) {
            Some(i) => r == Some(i as usize),
            None => r is None,
        },
{
    let b = user_url.as_bytes();
    let tag = vec![99u8, 108u8, 105u8, 112u8, 47u8];
    assert(tag@ == clip_tag());
    find_bytes(b, tag.as_slice())
}

/// The footage id of an Artgrid URL: the segment after the first `clip/`.
pub fn get_footage_id(user_url: &str) -> (r: String)
    ensures
        r@ == footage_id(user_url@),
{
    let b = user_url.as_bytes();
    let blen = b.len();
    let tag = vec![99u8, 108u8, 105u8, 112u8, 47u8];
    assert(tag@ == clip_tag());
    match find_bytes(b, tag.as_slice()) {
        Some(i) => {
            let ghost whole = user_url.spec_bytes();
            proof {
                lemma_find(whole, clip_tag());
                assert(whole[i + 4] == 47u8);
                lemma_str_decodes(user_url);
                lemma_boundary_after_ascii(whole, i + 4);
            }
            let href = suffix_from(user_url, i + 5);
            assert(href.spec_bytes().subrange(0, href.spec_bytes().len() as int) =~= href.spec_bytes());
            match segment_of(href) {
                Some(end) => end.to_owned(),
                None => "Invalid URL: No slash after 'clip/'".to_owned(),
            }
        },
        None => "String is not a valid URL".to_owned(),
    }
}

/// The name that a downloaded file gets for the URL segment that starts at
/// byte `offset`, or `None` when no `/` ends that segment.
pub fn find_url_name(user_url: &str, offset: usize) -> (r: Option<String>)
    requires
        offset <= user_url.spec_bytes().len(),
        is_char_boundary(user_url.spec_bytes(), offset as int),
    ensures
        match segment_at(user_url.spec_bytes(), offset as int) {
            Some(seg) => r matches Some(x) && x@ == footage_name_form(seg),
            None => r is None,
        },
{
    let href = suffix_from(user_url, offset);
    assert(href.spec_bytes().subrange(0, href.spec_bytes().len() as int) =~= href.spec_bytes());
    match segment_of(href) {
        Some(end) => {
            let seg = chars_of(end);
            let dash = vec!['-'];
            if contains_chars(&seg, &dash) {
                let space = vec![' '];
                let spaces2 = vec![' ', ' '];
                let spaces3 = vec![' ', ' ', ' '];
                let spaced = vec![' ', '-', ' '];
                let e1 = replace_chars(&seg, &dash, &space);
                let e2 = replace_chars(&e1, &spaces3, &spaced);
                let e3 = replace_chars(&e2, &spaces2, &space);
                assert(dash@ =~= seq!['-']);
                assert(space@ =~= seq![' ']);
                assert(spaces2@ =~= seq![' ', ' ']);
                assert(spaces3@ =~= seq![' ', ' ', ' ']);
                assert(spaced@ =~= seq![' ', '-', ' ']);
                Some(string_from_chars(&e3))
            } else {
                assert(dash@ =~= seq!['-']);
                Some(end.to_owned())
            }
        },
        None => None,
    }
}

/// The file name of the footage behind an Artlist URL (a `song/` or a
/// `track/` URL), as the download gets it.
pub fn get_footage_name(user_url: &str) -> (r: String)
    ensures
        r@ == footage_name(user_url@),
{
    let b = user_url.as_bytes();
    let blen = b.len();
    let song = vec![115u8, 111u8, 110u8, 103u8, 47u8];
    let track = vec![116u8, 114u8, 97u8, 99u8, 107u8, 47u8];
    assert(song@ == song_tag());
    assert(track@ == track_tag());
    let ghost whole = user_url.spec_bytes();
    proof {
        lemma_str_decodes(user_url);
    }
    match find_bytes(b, song.as_slice()) {
        Some(i) => {
            proof {
                lemma_find(whole, song_tag());
                assert(whole[i + 4] == 47u8);
                lemma_boundary_after_ascii(whole, i + 4);
            }
            match find_url_name(user_url, i + 5) {
                Some(name) => name,
                None => "Invalid URL: No slash after 'clip/'".to_owned(),
            }
        },
        None => match find_bytes(b, track.as_slice()) {
            Some(i) => {
                proof {
                    lemma_find(whole, track_tag());
                    assert(whole[i + 5] == 47u8);
                    lemma_boundary_after_ascii(whole, i + 5);
                }
                match find_url_name(user_url, i + 6) {
                    Some(name) => name,
                    None => "Invalid URL: No slash after 'track/'".to_owned(),
                }
            },
            None => "URL doesn't contain valid URL".to_owned(),
        },
    }
}

/// A path segment ends at the first `/` after its start: when there is one,
/// the segment is the text from the start up to that `/` and holds no `/`
/// itself; when no `/` follows the start, there is no segment.
pub proof fn law_segment_ends_at_first_slash(b: Seq<u8>, off: int)
    requires
        0 <= off <= b.len(),
    ensures
        match segment_at(b, off) {
            Some(seg) => exists|p: int|
                off <= p < b.len() && b[p] == 47u8 && (forall|q: int| off <= q < p ==> b[q] != 47u8)
                    && seg == decode_utf8(b.subrange(off, p)),
            None => forall|q: int| off <= q < b.len() ==> b[q] != 47u8,
        },
{
    let rest = b.subrange(off, b.len() as int);
    lemma_find(rest, slash());
    assert forall|j: int| 0 <= j < rest.len() && rest[j] == 47u8 implies matches_at(
        rest,
        slash(),
        j,
    ) by {
        assert(rest.subrange(j, j + 1) =~= slash());
    }
    match find(rest, slash()) {
        Some(k) => {
            let p = off + k;
            assert(rest.subrange(k as int, (k + 1) as int)[0] == slash()[0]);
            assert(b[p] == 47u8);
            assert forall|q: int| off <= q < p implies b[q] != 47u8 by {
                assert(rest[q - off] == b[q]);
            }
            assert(rest.subrange(0, k as int) =~= b.subrange(off, p));
        },
        None => {
            assert forall|q: int| off <= q < b.len() implies b[q] != 47u8 by {
                assert(rest[q - off] == b[q]);
            }
        },
    }
}

/// The footage id is the text between the first `clip/` and the next `/`;
/// a URL without `clip/`, or with no `/` after it, gets the matching message.
pub proof fn law_footage_id_follows_clip(url: Seq<char>)
    ensures
        match find(url_bytes(url), clip_tag()) {
            Some(i) => {
                let b = url_bytes(url);
                let start: int = (i + clip_tag().len()) as int;
                &&& matches_at(b, clip_tag(), i as int)
                &&& forall|j: int| 0 <= j < i ==> !matches_at(b, clip_tag(), j)
                &&& ((exists|p: int|
                    start <= p < b.len() && b[p] == 47u8 && (forall|q: int|
                        start <= q < p ==> b[q] != 47u8) && footage_id(url) == decode_utf8(
                        b.subrange(start, p),
                    )) || ((forall|q: int| start <= q < b.len() ==> b[q] != 47u8) && footage_id(url)
                    == "Invalid URL: No slash after 'clip/'"@))
            },
            None => (forall|j: int| !matches_at(url_bytes(url), clip_tag(), j)) && footage_id(url)
                == "String is not a valid URL"@,
        },
{
    let b = url_bytes(url);
    lemma_find(b, clip_tag());
    match find(b, clip_tag()) {
        Some(i) => {
            law_segment_ends_at_first_slash(b, (i + 5) as int);
        },
        None => {},
    }
}

} // verus!
