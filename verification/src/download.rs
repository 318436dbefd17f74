use vstd::prelude::*;

use crate::text::{chars_of, contains, contains_chars};

verus! {

/// A character in ASCII lower case (`char::to_ascii_lowercase`).
pub open spec fn ascii_lower(c: char) -> char {
    if 'A' <= c && c <= 'Z' {
        ((c as u32) + 32) as char
    } else {
        c
    }
}

/// A text in ASCII lower case (`str::to_ascii_lowercase`).
pub open spec fn ascii_lower_seq(s: Seq<char>) -> Seq<char> {
    s.map_values(|c: char| ascii_lower(c))
}

/// True when a directory entry's name holds the name that is looked for,
/// ASCII case ignored.
pub open spec fn entry_matches(name: Seq<char>, target_lower: Seq<char>) -> bool {
    contains(ascii_lower_seq(name), target_lower)
}

/// The first entry at or after `k` whose name matches.
pub open spec fn first_matching_from(names: Seq<Seq<char>>, target_lower: Seq<char>, k: nat) -> Option<
    nat,
>
    decreases names.len() - k,
{
    if k >= names.len() {
        None
    } else if entry_matches(names[k as int], target_lower) {
        Some(k)
    } else {
        first_matching_from(names, target_lower, k + 1)
    }
}

/// The names of a list of directory entries.
pub open spec fn names_view(names: Seq<String>) -> Seq<Seq<char>> {
    names.map_values(|s: String| s@)
}

/// One character in ASCII lower case.
fn lower_char(c: char) -> (r: char)
    ensures
        r == ascii_lower(c),
{
    if 'A' <= c && c <= 'Z' {
        let b = c as u32;
        let l = (b + 32) as u8;
        assert(l as u32 == b + 32);
        let r = l as char;
        assert(r == ((c as u32) + 32) as char);
        r
    } else {
        c
    }
}

/// A text in ASCII lower case.
pub fn to_ascii_lowercase(s: &str) -> (r: Vec<char>)
    ensures
        r@ == ascii_lower_seq(s@),
{
    let chars = chars_of(s);
    let mut r: Vec<char> = Vec::new();
    let mut i: usize = 0;
    while i < chars.len()
        invariant
            i <= chars@.len(),
            chars@ == s@,
            r@ =~= ascii_lower_seq(chars@.take(i as int)),
        decreases chars@.len() - i,
    {
        r.push(lower_char(chars[i]));
        assert(chars@.take(i + 1) =~= chars@.take(i as int).push(chars@[i as int]));
        i = i + 1;
    }
    assert(chars@.take(chars@.len() as int) =~= chars@);
    r
}

/// The watch over the download directory while a file comes in: it finds
/// the file by name, then waits until the file's size stops changing.
pub struct DownloadWatch {
    target_lower: Vec<char>,
    found: bool,
    last_size: u64,
}

impl DownloadWatch {
    /// The name looked for, in ASCII lower case.
    pub closed spec fn target(&self) -> Seq<char> {
        self.target_lower@
    }

    /// Whether the file was found.
    pub closed spec fn is_found(&self) -> bool {
        self.found
    }

    /// The size the file had at the last look (0 before any).
    pub closed spec fn last_size(&self) -> u64 {
        self.last_size
    }

    /// A watch for a file whose name holds `link_file_name`, ASCII case
    /// ignored.
    pub fn new(link_file_name: &str) -> (w: Self)
        ensures
            w.target() == ascii_lower_seq(link_file_name@),
            !w.is_found(),
            w.last_size() == 0,
    {
        DownloadWatch { target_lower: to_ascii_lowercase(link_file_name), found: false, last_size: 0 }
    }

    /// Whether the directory still has to be listed (the file is not found yet).
    pub fn needs_listing(&self) -> (r: bool)
        ensures
            r == !self.is_found(),
    {
        !self.found
    }

    /// Looks through the names of the directory's entries, in the order the
    /// directory gives them, and takes the first one that matches; gives its
    /// position. A watch that has found its file takes none.
    pub fn observe_listing(&mut self, names: &Vec<String>) -> (r: Option<usize>)
        ensures
            final(self).target() == old(self).target(),
            final(self).last_size() == old(self).last_size(),
            old(self).is_found() ==> r is None && final(self).is_found(),
            !old(self).is_found() ==> (match first_matching_from(
                names_view(names@),
                old(self).target(),
                0,
            ) {
                Some(k) => r == Some(k as usize) && final(self).is_found(),
                None => r is None && !final(self).is_found(),
            }),
    {
        if self.found {
            return None;
        }
        let mut k: usize = 0;
        while k < names.len()
            invariant
                k <= names@.len(),
                first_matching_from(names_view(names@), self.target(), 0) == first_matching_from(
                    names_view(names@),
                    self.target(),
                    k as nat,
                ),
                !self.found,
                self.target_lower@ == old(self).target_lower@,
                self.last_size == old(self).last_size,
                !old(self).found,
            decreases names@.len() - k,
        {
            let lower = to_ascii_lowercase(names[k].as_str());
            assert(names_view(names@)[k as int] == names@[k as int]@);
            if contains_chars(&lower, &self.target_lower) {
                self.found = true;
                return Some(k);
            }
            k = k + 1;
        }
        None
    }

    /// Takes the file's size at this look: the download is complete when the
    /// size is the same positive size as at the last look; otherwise the size
    /// is remembered for the next look.
    pub fn observe_size(&mut self, size: u64) -> (done: bool)
        ensures
            done == (old(self).last_size() > 0 && size == old(self).last_size()),
            final(self).target() == old(self).target(),
            final(self).is_found() == old(self).is_found(),
            done ==> final(self).last_size() == old(self).last_size(),
            !done ==> final(self).last_size() == size,
    {
        if self.last_size > 0 && size == self.last_size {
            return true;
        }
        self.last_size = size;
        false
    }
}

/// How long the watch waits for its file, in seconds: an hour.
pub const WAIT_LIMIT_SECS: u64 = 3600;

/// Whether the watch goes on looking after `elapsed_secs` whole seconds: it
/// gives up once an hour has passed.
pub fn keeps_waiting(elapsed_secs: u64) -> (r: bool)
    ensures
        r == (elapsed_secs < WAIT_LIMIT_SECS),
{
    elapsed_secs < WAIT_LIMIT_SECS
}

/// The message of the `NotFound` error with which a watch that gave up ends.
pub fn not_found_message() -> (m: &'static str)
    ensures
        m@ == "File not found"@,
{
    "File not found"
}

/// What the footager handler does after the site run.
#[derive(Debug, PartialEq, Eq)]
pub enum HandlerNext {
    /// Wait for this file to finish downloading.
    WaitForFile(String),
    /// Answer with this result of the download.
    Finished(Result<String, String>),
}

/// The handler's decision after the site run: a file name to wait for, an
/// empty name (nothing to wait for, recorded as `sss`), or the run's error.
pub fn after_site_run(result: Result<String, String>) -> (r: HandlerNext)
    ensures
        match result {
            Ok(p) => if p@.len() > 0 {
                r matches HandlerNext::WaitForFile(q) && q@ == p@
            } else {
                r matches HandlerNext::Finished(Ok(s)) && s@ == "sss"@
            },
            Err(e) => r matches HandlerNext::Finished(Err(e2)) && e2@ == e@,
        },
{
    match result {
        Ok(p) => {
            if !p.as_str().is_empty() {
                HandlerNext::WaitForFile(p)
            } else {
                HandlerNext::Finished(Ok("sss".to_owned()))
            }
        },
        Err(e) => HandlerNext::Finished(Err(e)),
    }
}

/// The handler's answer: 200 and `Request was received` when the download
/// went through, 500 and the error's text otherwise.
pub fn handler_response(result: Result<String, String>) -> (r: (u16, String))
    ensures
        match result {
            Ok(_) => r.0 == 200 && r.1@ == "Request was received"@,
            Err(e) => r.0 == 500 && r.1@ == e@,
        },
{
    match result {
        Ok(_) => (200, "Request was received".to_owned()),
        Err(e) => (500, e),
    }
}

/// True when a text holds no ASCII capital letter.
pub open spec fn has_no_capitals(s: Seq<char>) -> bool {
    forall|i: int| 0 <= i < s.len() ==> !('A' <= #[trigger] s[i] && s[i] <= 'Z')
}

/// Lowering the case changes only the ASCII capitals `A` to `Z`, each into
/// its own small letter; every other character, digits among them, stays as
/// it is, and a lowered character is lowered no further.
pub proof fn law_lowercase_changes_only_capitals(c: char)
    ensures
        !('A' <= c && c <= 'Z') ==> ascii_lower(c) == c,
        'A' <= c && c <= 'Z' ==> 'a' <= ascii_lower(c) && ascii_lower(c) <= 'z' && ascii_lower(c)
            as u32 == c as u32 + 32,
        ascii_lower(ascii_lower(c)) == ascii_lower(c),
{
}

/// A directory entry whose name holds no capitals matches a name without
/// capitals exactly when it contains that name as written.
pub proof fn law_names_without_capitals_match_as_written(name: Seq<char>, target: Seq<char>)
    requires
        has_no_capitals(name),
        has_no_capitals(target),
    ensures
        entry_matches(name, ascii_lower_seq(target)) == contains(name, target),
{
    assert(ascii_lower_seq(name) =~= name);
    assert(ascii_lower_seq(target) =~= target);
}

} // verus!
