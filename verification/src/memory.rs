use vstd::prelude::*;

use vstd::utf8::{decode_utf8, valid_utf8};

use crate::offsets::Offsets;

verus! {

// ---------------------------------------------------------------------
// Text as the operating system and the game hand it over.
// ---------------------------------------------------------------------

/// The bytes of a NUL-terminated string held in a buffer: everything before
/// the first zero byte, or the whole buffer when it holds none.
pub open spec fn c_str(bytes: Seq<u8>) -> Seq<u8>
    decreases bytes.len(),
{
    if bytes.len() == 0 {
        bytes
    } else if bytes[0] == 0 {
        Seq::<u8>::empty()
    } else {
        seq![bytes[0]] + c_str(bytes.drop_first())
    }
}

/// The string of a buffer is its longest prefix without a zero byte: it
/// is a prefix of the buffer, holds no zero, and is followed by a zero byte
/// or by the end of the buffer.
pub proof fn lemma_c_str_is_the_prefix_before_nul(bytes: Seq<u8>)
    ensures
        c_str(bytes).len() <= bytes.len(),
        c_str(bytes) == bytes.take(c_str(bytes).len() as int),
        forall|i: int| 0 <= i < c_str(bytes).len() ==> c_str(bytes)[i] != 0,
        c_str(bytes).len() < bytes.len() ==> bytes[c_str(bytes).len() as int] == 0,
    decreases bytes.len(),
{
    if bytes.len() > 0 && bytes[0] != 0 {
        let rest = bytes.drop_first();
        lemma_c_str_is_the_prefix_before_nul(rest);
        assert(c_str(bytes) == seq![bytes[0]] + c_str(rest));
        assert(c_str(bytes) =~= bytes.take(c_str(bytes).len() as int));
        assert forall|i: int| 0 <= i < c_str(bytes).len() implies c_str(bytes)[i] != 0 by {
            if i > 0 {
                assert(c_str(bytes)[i] == c_str(rest)[i - 1]);
            }
        }
    } else if bytes.len() > 0 {
        assert(c_str(bytes) =~= bytes.take(0));
    } else {
        assert(c_str(bytes) =~= bytes.take(0));
    }
}

/// A buffer of C characters (signed bytes) seen as bytes.
pub open spec fn as_bytes(chars: Seq<i8>) -> Seq<u8> {
    chars.map_values(|c: i8| c as u8)
}

/// What `String::from_utf8_lossy` makes of a byte sequence: its UTF-8
/// decoding, with each invalid sequence replaced by U+FFFD.
pub uninterp spec fn utf8_lossy(bytes: Seq<u8>) -> Seq<char>;

/// What `str::to_lowercase` makes of a string: its Unicode lowercase form.
pub uninterp spec fn lowercase(chars: Seq<char>) -> Seq<char>;

/// Calls `String::from_utf8_lossy` and takes the owned result. The contract
/// names the result `utf8_lossy(bytes)`; of it, it states only what the
/// documentation promises outright: that valid UTF-8 is decoded unchanged.
#[verifier::external_body]
fn string_from_utf8_lossy(bytes: &[u8]) -> (s: String)
    ensures
        s@ == utf8_lossy(bytes@),
        valid_utf8(bytes@) ==> s@ == decode_utf8(bytes@),
{
    String::from_utf8_lossy(bytes).into_owned()
}

/// Calls `str::to_lowercase`; the contract names the result
/// `lowercase(s@)` and says nothing more of it.
#[verifier::external_body]
fn str_to_lowercase(s: &str) -> (lower: String)
    ensures
        lower@ == lowercase(s@),
{
    s.to_lowercase()
}

/// Calls `String::from_utf8` and keeps the string: it is there exactly when
/// the bytes are valid UTF-8, and then it is their decoding.
#[verifier::external_body]
fn string_from_utf8(bytes: Vec<u8>) -> (s: Option<String>)
    ensures
        s is Some <==> valid_utf8(bytes@),
        s matches Some(s) ==> s@ == decode_utf8(bytes@),
{
    String::from_utf8(bytes).ok()
}

/// The bytes of `buffer` before its first zero byte.
fn c_str_bytes(buffer: &[u8]) -> (bytes: Vec<u8>)
    ensures
        bytes@ == c_str(buffer@),
{
    let mut bytes: Vec<u8> = Vec::new();
    let n = buffer.len();
    assert(buffer@.skip(0) == buffer@);
    for i in 0..n
        invariant
            n == buffer@.len(),
            c_str(buffer@) == bytes@ + c_str(buffer@.skip(i as int)),
    {
        assert(buffer@.skip(i as int).drop_first() == buffer@.skip(i + 1));
        let b = buffer[i];
        if b == 0 {
            assert(c_str(buffer@.skip(i as int)) == Seq::<u8>::empty());
            assert(bytes@ + Seq::<u8>::empty() == bytes@);
            return bytes;
        }
        assert(bytes@.push(b) == bytes@ + seq![b]);
        bytes.push(b);
    }
    assert(buffer@.skip(n as int) == Seq::<u8>::empty());
    assert(bytes@ + Seq::<u8>::empty() == bytes@);
    bytes
}

/// The C characters of `chars` before the first zero, as bytes.
fn c_str_from_chars(chars: &[i8]) -> (bytes: Vec<u8>)
    ensures
        bytes@ == c_str(as_bytes(chars@)),
{
    let mut raw: Vec<u8> = Vec::new();
    let n = chars.len();
    for i in 0..n
        invariant
            n == chars@.len(),
            raw@ == as_bytes(chars@.take(i as int)),
    {
        assert(chars@.take(i + 1) == chars@.take(i as int).push(chars@[i as int]));
        raw.push(chars[i] as u8);
    }
    assert(chars@.take(n as int) == chars@);
    c_str_bytes(raw.as_slice())
}

/// The characters of a string, one by one.
fn chars_of(s: &str) -> (chars: Vec<char>)
    ensures
        chars@ == s@,
{
    let mut chars: Vec<char> = Vec::new();
    let n = s.unicode_len();
    for i in 0..n
        invariant
            n == s@.len(),
            chars@ == s@.take(i as int),
    {
        assert(s@.take(i + 1) == s@.take(i as int).push(s@[i as int]));
        chars.push(s.get_char(i));
    }
    assert(s@.take(n as int) == s@);
    chars
}

/// `needle` occurs in `haystack` starting at position `at`.
pub open spec fn occurs_at(haystack: Seq<char>, needle: Seq<char>, at: int) -> bool {
    0 <= at && at + needle.len() <= haystack.len() && haystack.subrange(at, at + needle.len())
        == needle
}

/// `needle` occurs somewhere in `haystack`.
pub open spec fn contains_chars(haystack: Seq<char>, needle: Seq<char>) -> bool {
    exists|at: int| occurs_at(haystack, needle, at)
}

/// Whether `needle` occurs in `haystack`.
fn chars_contain(haystack: &Vec<char>, needle: &Vec<char>) -> (found: bool)
    ensures
        found == contains_chars(haystack@, needle@),
{
    let h = haystack.len();
    let k = needle.len();
    if k > h {
        assert forall|at: int| !occurs_at(haystack@, needle@, at) by {}
        return false;
    }
    let mut at: usize = 0;
    while at <= h - k
        invariant
            k <= h,
            h == haystack@.len(),
            k == needle@.len(),
            at <= h - k + 1,
            forall|a: int| 0 <= a < at ==> !occurs_at(haystack@, needle@, a),
        decreases h - k + 1 - at,
    {
        let mut j: usize = 0;
        let mut same = true;
        while j < k
            invariant
                k <= h,
                at <= h - k,
                h == haystack@.len(),
                k == needle@.len(),
                j <= k,
                same == (forall|m: int| 0 <= m < j ==> haystack@[at + m] == needle@[m]),
            decreases k - j,
        {
            if haystack[at + j] != needle[j] {
                same = false;
            }
            j = j + 1;
        }
        if same {
            assert(haystack@.subrange(at as int, at + k) =~= needle@);
            assert(occurs_at(haystack@, needle@, at as int));
            return true;
        }
        assert(!occurs_at(haystack@, needle@, at as int)) by {
            let m = choose|m: int| 0 <= m < k && haystack@[at + m] != needle@[m];
            assert(haystack@.subrange(at as int, at + k)[m] != needle@[m]);
        }
        at = at + 1;
    }
    assert forall|a: int| !occurs_at(haystack@, needle@, a) by {
        if 0 <= a < at {
        }
    }
    false
}

// ---------------------------------------------------------------------
// The game process and its modules.
// ---------------------------------------------------------------------

/// The name of the game's executable must contain these characters, in any
/// case.
pub open spec fn game_marker() -> Seq<char> {
    seq!['c', 's', '2']
}

/// The name that a module or process entry of `chars` carries: its
/// C string decoded leniently.
pub open spec fn entry_name(chars: Seq<i8>) -> Seq<char> {
    utf8_lossy(c_str(as_bytes(chars)))
}

/// An executable name that belongs to the game.
pub open spec fn is_game_name(exe: Seq<i8>) -> bool {
    contains_chars(lowercase(entry_name(exe)), game_marker())
}

/// Exit code that Windows reports for a process that is still running
/// (`STILL_ACTIVE`).
pub const STILL_ACTIVE: u32 = 259;

/// A module loaded in the game process.
#[derive(Clone, Debug)]
pub struct ModuleInfo {
    pub name: String,
    pub base: usize,
    pub size: u32,
}

/// A module as the module snapshot lists it: its name as a buffer of
/// C characters, its base address and its size.
#[derive(Clone, Debug)]
pub struct RawModule {
    pub name: Vec<i8>,
    pub base: usize,
    pub size: u32,
}

/// The game process: its id and the modules loaded in it.
pub struct GameProcess {
    pub pid: u32,
    pub modules: Vec<ModuleInfo>,
}

/// A module of `modules` whose name matches `name` without regard to case.
pub open spec fn module_matches(module: ModuleInfo, name: Seq<char>) -> bool {
    lowercase(module.name@) == lowercase(name)
}

impl ModuleInfo {
    /// This module is the one that a snapshot entry describes.
    pub open spec fn describes(self, raw: RawModule) -> bool {
        &&& self.name@ == entry_name(raw.name@)
        &&& self.base == raw.base
        &&& self.size == raw.size
    }

    /// The module that a snapshot entry describes: its name is the entry's
    /// C string, decoded leniently.
    pub fn from_raw(raw: &RawModule) -> (module: ModuleInfo)
        ensures
            module.describes(*raw),
    {
        let bytes = c_str_from_chars(raw.name.as_slice());
        ModuleInfo { name: string_from_utf8_lossy(bytes.as_slice()), base: raw.base, size: raw.size }
    }
}

impl GameProcess {
    /// Whether a process whose executable name is held in `exe_file` is the
    /// game: its name, decoded leniently and lowercased, contains "cs2".
    pub fn is_game_process(exe_file: &[i8]) -> (game: bool)
        ensures
            game == is_game_name(exe_file@),
    {
        let bytes = c_str_from_chars(exe_file);
        let name = string_from_utf8_lossy(bytes.as_slice());
        let lower = str_to_lowercase(name.as_str());
        let lower_chars = chars_of(lower.as_str());
        let marker = vec!['c', 's', '2'];
        assert(marker@ == game_marker());
        chars_contain(&lower_chars, &marker)
    }

    /// The first process of a process list, given by the executable names
    /// of its entries in order, that is the game.
    pub fn find(exe_files: &Vec<Vec<i8>>) -> (found: Option<usize>)
        ensures
            found matches Some(k) ==> {
                &&& k < exe_files@.len()
                &&& is_game_name(exe_files@[k as int]@)
                &&& forall|j: int| 0 <= j < k ==> !is_game_name(#[trigger] exe_files@[j]@)
            },
            found is None ==> forall|j: int|
                0 <= j < exe_files@.len() ==> !is_game_name(#[trigger] exe_files@[j]@),
    {
        let n = exe_files.len();
        for k in 0..n
            invariant
                n == exe_files@.len(),
                forall|j: int| 0 <= j < k ==> !is_game_name(#[trigger] exe_files@[j]@),
        {
            if GameProcess::is_game_process(exe_files[k].as_slice()) {
                return Some(k);
            }
        }
        None
    }

    /// Adds the modules of a module snapshot, in the snapshot's order.
    pub fn load_modules(&mut self, snapshot: &Vec<RawModule>)
        ensures
            final(self).pid == old(self).pid,
            final(self).modules@.len() == old(self).modules@.len() + snapshot@.len(),
            forall|i: int|
                0 <= i < old(self).modules@.len() ==> final(self).modules@[i] == old(
                    self,
                ).modules@[i],
            forall|i: int|
                0 <= i < snapshot@.len() ==> (#[trigger] final(self).modules@[old(
                    self,
                ).modules@.len() + i]).describes(snapshot@[i]),
    {
        let n = snapshot.len();
        let ghost start = self.modules@;
        for i in 0..n
            invariant
                n == snapshot@.len(),
                self.pid == old(self).pid,
                start == old(self).modules@,
                self.modules@.len() == start.len() + i,
                forall|j: int| 0 <= j < start.len() ==> self.modules@[j] == start[j],
                forall|j: int|
                    0 <= j < i ==> (#[trigger] self.modules@[start.len() + j]).describes(
                        snapshot@[j],
                    ),
        {
            let module = ModuleInfo::from_raw(&snapshot[i]);
            self.modules.push(module);
        }
    }

    /// The base address of the first module whose name equals `name`
    /// without regard to case.
    pub fn get_module_base(&self, name: &str) -> (base: Option<usize>)
        ensures
            base matches Some(b) ==> exists|k: int|
                0 <= k < self.modules@.len() && module_matches(
                    #[trigger] self.modules@[k],
                    name@,
                ) && self.modules@[k].base == b && forall|j: int|
                    0 <= j < k ==> !module_matches(#[trigger] self.modules@[j], name@),
            base is None ==> forall|k: int|
                0 <= k < self.modules@.len() ==> !module_matches(
                    #[trigger] self.modules@[k],
                    name@,
                ),
    {
        let wanted = str_to_lowercase(name);
        let n = self.modules.len();
        for k in 0..n
            invariant
                n == self.modules@.len(),
                wanted@ == lowercase(name@),
                forall|j: int|
                    0 <= j < k ==> !module_matches(#[trigger] self.modules@[j], name@),
        {
            let lower = str_to_lowercase(self.modules[k].name.as_str());
            if lower == wanted {
                assert(module_matches(self.modules@[k as int], name@));
                return Some(self.modules[k].base);
            }
        }
        None
    }

    /// Whether the game still runs, given whether the exit code query
    /// succeeded and the exit code it reported: it must have succeeded and
    /// reported `STILL_ACTIVE`.
    pub fn is_running(query_succeeded: bool, exit_code: u32) -> (running: bool)
        ensures
            running == (query_succeeded && exit_code == STILL_ACTIVE),
    {
        query_succeeded && exit_code == STILL_ACTIVE
    }

    /// The string held in a buffer copied out of the game's memory: the
    /// bytes before the first zero byte, when they are valid UTF-8.
    pub fn read_string(buffer: &[u8]) -> (text: Option<String>)
        ensures
            text is Some <==> valid_utf8(c_str(buffer@)),
            text matches Some(t) ==> t@ == decode_utf8(c_str(buffer@)),
    {
        let bytes = c_str_bytes(buffer);
        string_from_utf8(bytes)
    }

    /// Address of the view matrix cell at `row` and `column`: the matrix is
    /// stored at `dwViewMatrix` in the client module as sixteen 4-byte
    /// floats, row by row.
    pub fn view_matrix_cell(client_base: usize, row: usize, column: usize) -> (address: usize)
        requires
            row < 4,
            column < 4,
            client_base + Offsets::dwViewMatrix + (row * 4 + column) * 4 <= usize::MAX,
        ensures
            address == client_base + Offsets::dwViewMatrix + (row * 4 + column) * 4,
    {
        let matrix = client_base + Offsets::dwViewMatrix;
        matrix + (row * 4 + column) * 4
    }
}

}
