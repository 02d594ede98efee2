use vstd::prelude::*;

use crate::indexer::EntryOutcome;
use crate::text::push_char;

verus! {

/// Files whose content is longer than this many bytes are not indexed.
pub const MAX_CONTENT_BYTES: usize = 50_000;

/// A name is hidden when it starts with a dot.
pub open spec fn is_hidden(name: Seq<char>) -> bool {
    name.len() > 0 && name[0] == '.'
}

/// Index of the last `'.'` in `s`, or -1 when there is none.
pub open spec fn last_dot(s: Seq<char>) -> int
    decreases s.len(),
{
    if s.len() == 0 {
        -1
    } else if s.last() == '.' {
        s.len() - 1
    } else {
        last_dot(s.drop_last())
    }
}

/// Extension of a file name, as `Path::extension` reads it: the text after the
/// last dot, where that dot is not the first character; empty when there is no
/// extension.
pub open spec fn extension_of(name: Seq<char>) -> Seq<char> {
    if last_dot(name) <= 0 {
        Seq::empty()
    } else {
        name.subrange(last_dot(name) + 1, name.len() as int)
    }
}

/// The extensions of the files that are indexed.
pub open spec fn allowed_extensions() -> Set<Seq<char>> {
    set![
        "rs"@,
        "js"@,
        "ts"@,
        "py"@,
        "md"@,
        "txt"@,
        "json"@,
        "toml"@,
        "yaml"@,
        "yml"@,
    ]
}

/// Whether `name` starts with a dot.
pub fn is_hidden_name(name: &str) -> (r: bool)
    ensures
        r == is_hidden(name@),
{
    let mut r = false;
    let mut first = true;
    for c in it: name.chars()
        invariant
            it.seq() == name@,
            first == (it.index() == 0),
            r == (it.index() > 0 && name@[0] == '.'),
    {
        if first {
            r = c == '.';
            first = false;
        }
    }
    r
}

proof fn lemma_last_dot_range(s: Seq<char>)
    ensures
        -1 <= last_dot(s) < s.len(),
        last_dot(s) >= 0 ==> s[last_dot(s)] == '.',
    decreases s.len(),
{
    if s.len() > 0 && s.last() != '.' {
        lemma_last_dot_range(s.drop_last());
    }
}

/// Extension of a file name: the text after its last dot, unless that dot is
/// its first character; empty when the name has no extension.
pub fn file_extension(name: &str) -> (r: String)
    ensures
        r@ == extension_of(name@),
{
    let mut after = String::new();
    let mut saw_dot = false;
    let mut dot_leads = false;
    let mut first = true;
    for c in it: name.chars()
        invariant
            it.seq() == name@,
            first == (it.index() == 0),
            saw_dot == (last_dot(name@.subrange(0, it.index())) >= 0),
            dot_leads == (last_dot(name@.subrange(0, it.index())) == 0),
            !saw_dot ==> after@.len() == 0,
            saw_dot ==> after@ == name@.subrange(
                last_dot(name@.subrange(0, it.index())) + 1,
                it.index(),
            ),
    {
        let ghost prev = name@.subrange(0, it.index());
        proof {
            lemma_last_dot_range(prev);
            assert(name@.subrange(0, it.index() + 1).drop_last() == prev);
            assert(name@.subrange(0, it.index() + 1).last() == c);
        }
        if c == '.' {
            saw_dot = true;
            dot_leads = first;
            after = String::new();
        } else if saw_dot {
            push_char(&mut after, c);
        }
        first = false;
    }
    proof {
        assert(name@.subrange(0, name@.len() as int) == name@);
    }
    if saw_dot && !dot_leads {
        after
    } else {
        String::new()
    }
}

/// Whether `ext` is one of the extensions of the files that are indexed.
pub fn is_allowed_extension(ext: &str) -> (r: bool)
    ensures
        r == allowed_extensions().contains(ext@),
{
    let e = ext.to_owned();
    let r = e == "rs".to_owned() || e == "js".to_owned() || e == "ts".to_owned() || e
        == "py".to_owned() || e == "md".to_owned() || e == "txt".to_owned() || e
        == "json".to_owned() || e == "toml".to_owned() || e == "yaml".to_owned() || e
        == "yml".to_owned();
    r
}

/// Number of bytes of the UTF-8 encoding of a text, as `str::len` reports it.
pub open spec fn byte_len(content: Seq<char>) -> nat {
    (vstd::utf8::encode_utf8(content).len() as usize) as nat
}

/// What the scan does with a filesystem entry once it knows its kind and name.
#[derive(Clone, Copy, Debug, PartialEq, Eq, Structural)]
pub enum Screening {
    /// The entry is not indexed, for the reason given.
    Skip(EntryOutcome),
    /// The entry is a candidate: its content is to be read.
    Read,
}

/// The screening of an entry: directories, hidden names and extensions outside
/// the allow-list are passed over, in that order of precedence.
pub open spec fn screening_of(is_dir: bool, name: Seq<char>) -> Screening {
    if is_dir {
        Screening::Skip(EntryOutcome::Directory)
    } else if is_hidden(name) {
        Screening::Skip(EntryOutcome::Hidden)
    } else if !allowed_extensions().contains(extension_of(name)) {
        Screening::Skip(EntryOutcome::DisallowedExtension)
    } else {
        Screening::Read
    }
}

/// Decides, from its kind and base name, whether an entry's content is read.
pub fn screen_entry(is_dir: bool, file_name: &str) -> (r: Screening)
    ensures
        r == screening_of(is_dir, file_name@),
{
    if is_dir {
        Screening::Skip(EntryOutcome::Directory)
    } else if is_hidden_name(file_name) {
        Screening::Skip(EntryOutcome::Hidden)
    } else {
        let ext = file_extension(file_name);
        if !is_allowed_extension(ext.as_str()) {
            Screening::Skip(EntryOutcome::DisallowedExtension)
        } else {
            Screening::Read
        }
    }
}

/// An eligible file, with its full text content.
pub struct FileRecord {
    /// Path of the file, as the scan reached it.
    pub path: String,
    /// Base name of the file.
    pub file_name: String,
    /// Full text content of the file.
    pub content: String,
    /// Length of the content in bytes.
    pub byte_len: usize,
}

impl FileRecord {
    /// A record the scan may yield: a visible file with an allowed extension
    /// whose content fits the size ceiling.
    pub open spec fn wf(&self) -> bool {
        &&& screening_of(false, self.file_name@) == Screening::Read
        &&& self.byte_len == byte_len(self.content@)
        &&& self.byte_len <= MAX_CONTENT_BYTES
    }
}

/// What the scan makes of a candidate file once its content was read (`None`
/// when reading failed).
pub open spec fn admission_of(content: Option<String>) -> Option<EntryOutcome> {
    match content {
        None => Some(EntryOutcome::Unreadable),
        Some(c) => if byte_len(c@) > MAX_CONTENT_BYTES {
            Some(EntryOutcome::Oversize)
        } else {
            None
        },
    }
}

/// Turns a candidate file into a record, or says why it is skipped: its content
/// could not be read, or exceeds `MAX_CONTENT_BYTES` bytes.
pub fn admit_content(path: String, file_name: String, content: Option<String>) -> (r: Result<
    FileRecord,
    EntryOutcome,
>)
    requires
        screening_of(false, file_name@) == Screening::Read,
    ensures
        match r {
            Ok(rec) => {
                &&& admission_of(content) is None
                &&& rec.wf()
                &&& rec.path == path
                &&& rec.file_name == file_name
                &&& content == Some(rec.content)
            },
            Err(e) => admission_of(content) == Some(e),
        },
{
    match content {
        None => Err(EntryOutcome::Unreadable),
        Some(text) => {
            let n = text.as_str().len();
            if n > MAX_CONTENT_BYTES {
                Err(EntryOutcome::Oversize)
            } else {
                Ok(FileRecord { path, file_name, content: text, byte_len: n })
            }
        },
    }
}

/// The scan yields only visible files, never directories, whose extension is
/// allowed and whose content could be read and is at most `MAX_CONTENT_BYTES`
/// bytes long.
pub proof fn lemma_scan_yields_eligible_files(is_dir: bool, name: Seq<char>, content: Option<String>)
    requires
        screening_of(is_dir, name) == Screening::Read,
        admission_of(content) is None,
    ensures
        !is_dir,
        !is_hidden(name),
        allowed_extensions().contains(extension_of(name)),
        content is Some,
        byte_len(content->0@) <= MAX_CONTENT_BYTES,
{
}

} // verus!
