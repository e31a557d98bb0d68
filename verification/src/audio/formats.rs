//! Container detection from a file name.

use crate::text::chars_of;
use vstd::prelude::*;

verus! {

/// The audio containers the pipeline knows by file extension.
#[derive(Debug, Clone, Copy, PartialEq, Eq, Structural)]
pub enum AudioFormat {
    Wav,
    Webm,
    Mp3,
    M4a,
    Mp4,
    Ogg,
    Flac,
    Aac,
}

/// An ASCII capital letter mapped to its small letter; every other character unchanged.
pub open spec fn lower_char(c: char) -> char {
    if 'A' <= c && c <= 'Z' {
        ((c as u8) + 32) as char
    } else {
        c
    }
}

/// `s` with every character passed through [`lower_char`].
pub open spec fn lowercase(s: Seq<char>) -> Seq<char> {
    Seq::new(s.len(), |i: int| lower_char(s[i]))
}

/// Position of the last `.` among the first `end` characters of `path`, or -1 without one.
pub open spec fn last_dot(path: Seq<char>, end: int) -> int
    decreases end,
{
    if end <= 0 {
        -1
    } else if path[end - 1] == '.' {
        end - 1
    } else {
        last_dot(path, end - 1)
    }
}

/// The characters after the last `.` of `path`; `None` where `path` holds no `.`.
pub open spec fn extension(path: Seq<char>) -> Option<Seq<char>> {
    let dot = last_dot(path, path.len() as int);
    if dot < 0 {
        None
    } else {
        Some(path.subrange(dot + 1, path.len() as int))
    }
}

/// The container that a lower-case extension names.
pub open spec fn format_of_extension(ext: Seq<char>) -> Option<AudioFormat> {
    if ext == "wav"@ || ext == "wave"@ {
        Some(AudioFormat::Wav)
    } else if ext == "webm"@ {
        Some(AudioFormat::Webm)
    } else if ext == "mp3"@ {
        Some(AudioFormat::Mp3)
    } else if ext == "m4a"@ {
        Some(AudioFormat::M4a)
    } else if ext == "mp4"@ {
        Some(AudioFormat::Mp4)
    } else if ext == "ogg"@ {
        Some(AudioFormat::Ogg)
    } else if ext == "flac"@ {
        Some(AudioFormat::Flac)
    } else if ext == "aac"@ {
        Some(AudioFormat::Aac)
    } else {
        None
    }
}

/// What the extensions of the table are made of.
proof fn lemma_table_letters()
    ensures
        "."@ == seq!['.'],
        "wav"@ == seq!['w', 'a', 'v'],
        "wave"@ == seq!['w', 'a', 'v', 'e'],
        "webm"@ == seq!['w', 'e', 'b', 'm'],
        "mp3"@ == seq!['m', 'p', '3'],
        "m4a"@ == seq!['m', '4', 'a'],
        "mp4"@ == seq!['m', 'p', '4'],
        "ogg"@ == seq!['o', 'g', 'g'],
        "flac"@ == seq!['f', 'l', 'a', 'c'],
        "aac"@ == seq!['a', 'a', 'c'],
{
    reveal_strlit(".");
    reveal_strlit("wav");
    reveal_strlit("wave");
    reveal_strlit("webm");
    reveal_strlit("mp3");
    reveal_strlit("m4a");
    reveal_strlit("mp4");
    reveal_strlit("ogg");
    reveal_strlit("flac");
    reveal_strlit("aac");
    assert("."@ =~= seq!['.']);
    assert("wav"@ =~= seq!['w', 'a', 'v']);
    assert("wave"@ =~= seq!['w', 'a', 'v', 'e']);
    assert("webm"@ =~= seq!['w', 'e', 'b', 'm']);
    assert("mp3"@ =~= seq!['m', 'p', '3']);
    assert("m4a"@ =~= seq!['m', '4', 'a']);
    assert("mp4"@ =~= seq!['m', 'p', '4']);
    assert("ogg"@ =~= seq!['o', 'g', 'g']);
    assert("flac"@ =~= seq!['f', 'l', 'a', 'c']);
    assert("aac"@ =~= seq!['a', 'a', 'c']);
}

/// The container of the file called `path`: its extension, letter case ignored,
/// looked up in the table; `None` for an unknown extension and for a name without one.
pub open spec fn format_of_path(path: Seq<char>) -> Option<AudioFormat> {
    match extension(path) {
        Some(ext) => format_of_extension(lowercase(ext)),
        None => None,
    }
}

/// `last_dot` points at a `.` with no `.` behind it.
pub proof fn lemma_last_dot(path: Seq<char>, end: int)
    requires
        0 <= end <= path.len(),
    ensures
        -1 <= last_dot(path, end) < end,
        last_dot(path, end) >= 0 ==> path[last_dot(path, end)] == '.',
        forall|i: int| last_dot(path, end) < i < end ==> path[i] != '.',
    decreases end,
{
    if end > 0 && path[end - 1] != '.' {
        lemma_last_dot(path, end - 1);
    }
}

/// The extension decides: a name made of any stem, a `.` and an extension
/// without a `.` is of the container that the extension names, whatever
/// the case of its letters.
pub proof fn lemma_extension_decides(stem: Seq<char>, ext: Seq<char>)
    requires
        forall|i: int| 0 <= i < ext.len() ==> ext[i] != '.',
    ensures
        format_of_path(stem + "."@ + ext) == format_of_extension(lowercase(ext)),
{
    lemma_table_letters();
    let path = stem + "."@ + ext;
    lemma_last_dot(path, path.len() as int);
    assert(path[stem.len() as int] == '.');
    assert(last_dot(path, path.len() as int) == stem.len());
    assert(path.subrange(stem.len() as int + 1, path.len() as int) =~= ext);
}

/// The table: behind any stem and a `.`, each of the nine extensions names
/// its container, in small letters, in capitals and in any mix of the two.
pub proof fn lemma_known_extensions(stem: Seq<char>, ext: Seq<char>)
    ensures
        lowercase(ext) == "wav"@ ==> format_of_path(stem + "."@ + ext) == Some(AudioFormat::Wav),
        lowercase(ext) == "wave"@ ==> format_of_path(stem + "."@ + ext) == Some(AudioFormat::Wav),
        lowercase(ext) == "webm"@ ==> format_of_path(stem + "."@ + ext) == Some(AudioFormat::Webm),
        lowercase(ext) == "mp3"@ ==> format_of_path(stem + "."@ + ext) == Some(AudioFormat::Mp3),
        lowercase(ext) == "m4a"@ ==> format_of_path(stem + "."@ + ext) == Some(AudioFormat::M4a),
        lowercase(ext) == "mp4"@ ==> format_of_path(stem + "."@ + ext) == Some(AudioFormat::Mp4),
        lowercase(ext) == "ogg"@ ==> format_of_path(stem + "."@ + ext) == Some(AudioFormat::Ogg),
        lowercase(ext) == "flac"@ ==> format_of_path(stem + "."@ + ext) == Some(AudioFormat::Flac),
        lowercase(ext) == "aac"@ ==> format_of_path(stem + "."@ + ext) == Some(AudioFormat::Aac),
{
    lemma_table_letters();
    if format_of_extension(lowercase(ext)) is Some {
        let lower = lowercase(ext);
        assert(lower.len() == 3 || lower.len() == 4);
        assert(lower[0] != '.' && lower[1] != '.' && lower[2] != '.');
        assert(lower.len() == 4 ==> lower[3] != '.');
        assert forall|i: int| 0 <= i < ext.len() implies ext[i] != '.' by {
            assert(lower[i] == lower_char(ext[i]));
        }
        lemma_extension_decides(stem, ext);
    }
}

/// A name without a `.` is of no container.
pub proof fn lemma_no_extension(path: Seq<char>)
    requires
        forall|i: int| 0 <= i < path.len() ==> path[i] != '.',
    ensures
        format_of_path(path) is None,
{
    lemma_last_dot(path, path.len() as int);
}

/// Letter case is ignored: two names that are equal once their capital
/// letters are made small are of the same container.
pub proof fn lemma_case_insensitive(a: Seq<char>, b: Seq<char>)
    requires
        lowercase(a) == lowercase(b),
    ensures
        format_of_path(a) == format_of_path(b),
{
    let n = a.len() as int;
    assert(lowercase(a).len() == a.len());
    assert(lowercase(b).len() == b.len());
    assert forall|i: int| 0 <= i < n implies (a[i] == '.') == (b[i] == '.') by {
        assert(lowercase(a)[i] == lower_char(a[i]));
        assert(lowercase(b)[i] == lower_char(b[i]));
    }
    lemma_same_dots(a, b, n);
    let dot = last_dot(a, n);
    lemma_last_dot(a, n);
    if dot >= 0 {
        let ea = a.subrange(dot + 1, n);
        let eb = b.subrange(dot + 1, n);
        assert forall|i: int| 0 <= i < ea.len() implies lower_char(ea[i]) == lower_char(eb[i]) by {
            assert(lowercase(a)[dot + 1 + i] == lower_char(a[dot + 1 + i]));
            assert(lowercase(b)[dot + 1 + i] == lower_char(b[dot + 1 + i]));
        }
        assert(lowercase(ea) =~= lowercase(eb));
    }
}

/// Names with their dots in the same places have their last dot in the same place.
proof fn lemma_same_dots(a: Seq<char>, b: Seq<char>, end: int)
    requires
        0 <= end <= a.len(),
        a.len() == b.len(),
        forall|i: int| 0 <= i < a.len() ==> (a[i] == '.') == (b[i] == '.'),
    ensures
        last_dot(a, end) == last_dot(b, end),
    decreases end,
{
    if end > 0 && a[end - 1] != '.' {
        lemma_same_dots(a, b, end - 1);
    }
}

fn to_lower(c: char) -> (r: char)
    ensures
        r == lower_char(c),
{
    if 'A' <= c && c <= 'Z' {
        ((c as u8) + 32) as char
    } else {
        c
    }
}

impl AudioFormat {
    /// Detects the container from the extension of `path`.
    pub fn from_path(path: &str) -> (r: Option<Self>)
        ensures
            r == format_of_path(path@),
    {
        let chars = chars_of(path);
        let n = chars.len();
        let mut dot: usize = n;
        while dot > 0 && chars[dot - 1] != '.'
            invariant
                dot <= n,
                n == chars@.len(),
                last_dot(chars@, n as int) == last_dot(chars@, dot as int),
            decreases dot,
        {
            dot -= 1;
        }
        if dot == 0 {
            return None;
        }
        let mut ext: Vec<char> = Vec::new();
        let mut i: usize = dot;
        while i < n
            invariant
                dot <= i <= n,
                n == chars@.len(),
                ext@ == lowercase(chars@.subrange(dot as int, i as int)),
            decreases n - i,
        {
            ext.push(to_lower(chars[i]));
            i += 1;
            assert(ext@ =~= lowercase(chars@.subrange(dot as int, i as int)));
        }
        assert(extension(path@) == Some(chars@.subrange(dot as int, n as int)));
        Self::from_extension(&ext)
    }

    /// Looks a lower-case extension up in the table.
    fn from_extension(ext: &Vec<char>) -> (r: Option<Self>)
        ensures
            r == format_of_extension(ext@),
    {
        proof {
            lemma_table_letters();
        }
        let n = ext.len();
        if n == 3 {
            let (a, b, c) = (ext[0], ext[1], ext[2]);
            if a == 'w' && b == 'a' && c == 'v' {
                assert(ext@ =~= seq!['w', 'a', 'v']);
                Some(AudioFormat::Wav)
            } else if a == 'm' && b == 'p' && c == '3' {
                assert(ext@ =~= seq!['m', 'p', '3']);
                Some(AudioFormat::Mp3)
            } else if a == 'm' && b == '4' && c == 'a' {
                assert(ext@ =~= seq!['m', '4', 'a']);
                Some(AudioFormat::M4a)
            } else if a == 'm' && b == 'p' && c == '4' {
                assert(ext@ =~= seq!['m', 'p', '4']);
                Some(AudioFormat::Mp4)
            } else if a == 'o' && b == 'g' && c == 'g' {
                assert(ext@ =~= seq!['o', 'g', 'g']);
                Some(AudioFormat::Ogg)
            } else if a == 'a' && b == 'a' && c == 'c' {
                assert(ext@ =~= seq!['a', 'a', 'c']);
                Some(AudioFormat::Aac)
            } else {
                None
            }
        } else if n == 4 {
            let (a, b, c, d) = (ext[0], ext[1], ext[2], ext[3]);
            if a == 'w' && b == 'a' && c == 'v' && d == 'e' {
                assert(ext@ =~= seq!['w', 'a', 'v', 'e']);
                Some(AudioFormat::Wav)
            } else if a == 'w' && b == 'e' && c == 'b' && d == 'm' {
                assert(ext@ =~= seq!['w', 'e', 'b', 'm']);
                Some(AudioFormat::Webm)
            } else if a == 'f' && b == 'l' && c == 'a' && d == 'c' {
                assert(ext@ =~= seq!['f', 'l', 'a', 'c']);
                Some(AudioFormat::Flac)
            } else {
                None
            }
        } else {
            None
        }
    }

    /// Whether a file of this container must be transcoded before it can be decoded.
    pub fn needs_conversion(&self) -> (r: bool)
        ensures
            r == (*self != AudioFormat::Wav),
    {
        !matches!(self, AudioFormat::Wav)
    }
}

} // verus!
