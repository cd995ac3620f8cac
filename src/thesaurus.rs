use vstd::prelude::*;

verus! {

/// Magic of an 8-bit (`.DBZ`) thesaurus.
pub const DBZ_MAGIC: u32 = 0x13421342;

/// Magic of a 16-bit (`.DUZ`) thesaurus.
pub const DUZ_MAGIC: u32 = 0x43124312;

/// Size of the fixed header: magic, string table offset, a reserved word and
/// the string count.
pub const HEADER_LEN: usize = 16;

/// Little-endian 32-bit word at `at`.
pub open spec fn le_u32(b: Seq<u8>, at: int) -> int {
    b[at] + 256 * b[at + 1] + 65536 * b[at + 2] + 16777216 * b[at + 3]
}

/// Little-endian 16-bit unit at `at`.
pub open spec fn le_u16(b: Seq<u8>, at: int) -> int {
    b[at] + 256 * b[at + 1]
}

/// ASCII upper case of one character.
pub open spec fn ascii_upper(c: char) -> char {
    if 'a' <= c && c <= 'z' {
        ((c as u32) - 32) as char
    } else {
        c
    }
}

/// Whether two texts are equal once ASCII letters are upper-cased.
pub open spec fn eq_ignore_ascii_case(a: Seq<char>, b: Seq<char>) -> bool {
    a.len() == b.len() && forall|i: int| 0 <= i < a.len() ==> ascii_upper(#[trigger] a[i]) == ascii_upper(b[i])
}

/// Text decoded from 8-bit code units, invalid sequences replaced.
pub uninterp spec fn utf8_lossy(b: Seq<u8>) -> Seq<char>;

/// Text decoded from 16-bit code units, invalid sequences replaced.
pub uninterp spec fn utf16_lossy(u: Seq<u16>) -> Seq<char>;

/// Relies on std's `String::from_utf8_lossy`: decodes UTF-8, replacing
/// invalid sequences; the result depends on the bytes alone.
#[verifier::external_body]
fn decode_utf8_lossy(b: &[u8]) -> (r: String)
    ensures
        r@ == utf8_lossy(b@),
        b@.len() == 0 ==> r@.len() == 0,
{
    String::from_utf8_lossy(b).to_string()
}

/// Relies on std's `String::from_utf16_lossy`: decodes UTF-16, replacing
/// invalid sequences; the result depends on the units alone.
#[verifier::external_body]
fn decode_utf16_lossy(u: &[u16]) -> (r: String)
    ensures
        r@ == utf16_lossy(u@),
        u@.len() == 0 ==> r@.len() == 0,
{
    String::from_utf16_lossy(u)
}

/// An 8-bit string record at `start`: its bytes up to the NUL that ends it
/// (not included), or up to the end of the data.
pub open spec fn utf8_record(data: Seq<u8>, start: int) -> Seq<u8>
    decreases data.len() - start,
{
    if start < 0 || start >= data.len() {
        Seq::empty()
    } else if data[start] == 0 {
        Seq::empty()
    } else {
        seq![data[start]] + utf8_record(data, start + 1)
    }
}

/// A 16-bit string record at `start`: its units up to the NUL unit that ends
/// it (not included), or up to the last whole unit of the data.
pub open spec fn utf16_record(data: Seq<u8>, start: int) -> Seq<u16>
    decreases data.len() - start,
{
    if start < 0 || start + 2 > data.len() {
        Seq::empty()
    } else if le_u16(data, start) == 0 {
        Seq::empty()
    } else {
        seq![le_u16(data, start) as u16] + utf16_record(data, start + 2)
    }
}

/// The first `max` items, when a maximum is given.
pub open spec fn limited<A>(s: Seq<A>, max: Option<usize>) -> Seq<A> {
    match max {
        Some(m) => if m < s.len() {
            s.subrange(0, m as int)
        } else {
            s
        },
        None => s,
    }
}

/// A UI string lookup table: a little-endian header, a table of 32-bit
/// string offsets, and NUL-terminated string records of 8- or 16-bit units.
pub struct Thesaurus {
    lang: String,
    data: Vec<u8>,
    string_db_start: usize,
    max_strings: usize,
    is_utf16: bool,
}

/// Which code-unit width a file extension selects: `Some(false)` for DBZ,
/// `Some(true)` for DUZ, in any letter case.
pub open spec fn extension_encoding(ext: Seq<char>) -> Option<bool> {
    if eq_ignore_ascii_case(ext, "DBZ"@) {
        Some(false)
    } else if eq_ignore_ascii_case(ext, "DUZ"@) {
        Some(true)
    } else {
        None
    }
}

fn ascii_upper_exec(c: char) -> (r: char)
    ensures
        r == ascii_upper(c),
{
    if 'a' <= c && c <= 'z' {
        let u: u32 = (c as u32) - 32;
        proof {
            assert(u < 0xD800);
        }
        (u as u8) as char
    } else {
        c
    }
}

fn eq_ignore_ascii_case_exec(a: &str, b: &str) -> (r: bool)
    ensures
        r == eq_ignore_ascii_case(a@, b@),
{
    let n = a.unicode_len();
    if n != b.unicode_len() {
        return false;
    }
    let mut i: usize = 0;
    while i < n
        invariant
            n == a@.len(),
            n == b@.len(),
            i <= n,
            forall|j: int| 0 <= j < i ==> ascii_upper(#[trigger] a@[j]) == ascii_upper(b@[j]),
        decreases n - i,
    {
        if ascii_upper_exec(a.get_char(i)) != ascii_upper_exec(b.get_char(i)) {
            return false;
        }
        i = i + 1;
    }
    true
}

/// The code-unit width that a file extension selects, if it names a thesaurus.
pub fn encoding_of_extension(ext: &str) -> (r: Option<bool>)
    ensures
        r == extension_encoding(ext@),
{
    if eq_ignore_ascii_case_exec(ext, "DBZ") {
        Some(false)
    } else if eq_ignore_ascii_case_exec(ext, "DUZ") {
        Some(true)
    } else {
        None
    }
}

fn read_le_u32(b: &Vec<u8>, at: usize) -> (r: u32)
    requires
        at + 4 <= b@.len(),
    ensures
        r as int == le_u32(b@, at as int),
{
    let n = b.len();
    assert(at + 4 <= n);
    let b0 = b[at] as u32;
    let b1 = b[at + 1] as u32;
    let b2 = b[at + 2] as u32;
    let b3 = b[at + 3] as u32;
    assert(b0 <= 255 && b1 <= 255 && b2 <= 255 && b3 <= 255);
    assert(256 * b1 <= 65280) by (nonlinear_arith)
        requires
            b1 <= 255,
    ;
    assert(65536 * b2 <= 16711680) by (nonlinear_arith)
        requires
            b2 <= 255,
    ;
    assert(16777216 * b3 <= 4278190080) by (nonlinear_arith)
        requires
            b3 <= 255,
    ;
    b0 + 256 * b1 + 65536 * b2 + 16777216 * b3
}

/// Whether `data` is a thesaurus of the given width: a full header whose
/// magic matches.
pub open spec fn valid_image(data: Seq<u8>, is_utf16: bool) -> bool {
    data.len() >= 16 && le_u32(data, 0) == (if is_utf16 { DUZ_MAGIC } else { DBZ_MAGIC })
}

impl Thesaurus {
    pub closed spec fn image(&self) -> Seq<u8> {
        self.data@
    }

    pub closed spec fn utf16(&self) -> bool {
        self.is_utf16
    }

    pub closed spec fn language(&self) -> Seq<char> {
        self.lang@
    }

    /// Offset of the string offset table, from the header.
    pub open spec fn table_start(&self) -> int {
        le_u32(self.image(), 4)
    }

    /// Number of strings, from the header.
    pub open spec fn count(&self) -> int {
        le_u32(self.image(), 12)
    }

    pub closed spec fn wf(&self) -> bool {
        &&& valid_image(self.data@, self.is_utf16)
        &&& self.string_db_start as int == le_u32(self.data@, 4)
        &&& self.max_strings as int == le_u32(self.data@, 12)
    }

    /// Opens a thesaurus image read whole from a file; `is_utf16` comes from
    /// the file's extension, `lang` names its language.
    pub fn from_bytes(data: Vec<u8>, is_utf16: bool, lang: String) -> (r: Option<Self>)
        ensures
            r is Some <==> valid_image(data@, is_utf16),
            r is Some ==> {
                let t = r->0;
                &&& t.wf()
                &&& t.image() == data@
                &&& t.utf16() == is_utf16
                &&& t.language() == lang@
            },
    {
        if data.len() < HEADER_LEN {
            return None;
        }
        let header = read_le_u32(&data, 0);
        let string_db_start = read_le_u32(&data, 4);
        let num_strings = read_le_u32(&data, 12);
        if (is_utf16 && header != DUZ_MAGIC) || (!is_utf16 && header != DBZ_MAGIC) {
            return None;
        }
        Some(Thesaurus {
            lang,
            data,
            string_db_start: string_db_start as usize,
            max_strings: num_strings as usize,
            is_utf16,
        })
    }

    /// Number of strings that the table holds.
    pub fn string_count(&self) -> (r: usize)
        requires
            self.wf(),
        ensures
            r as int == self.count(),
    {
        self.max_strings
    }

    /// Whether the strings are 16-bit.
    pub fn is_utf16(&self) -> (r: bool)
        ensures
            r == self.utf16(),
    {
        self.is_utf16
    }

    /// The language that the table was opened for.
    pub fn lang(&self) -> (r: &String)
        ensures
            r@ == self.language(),
    {
        &self.lang
    }
}

/// The string at 1-based `idx`: `None` for an index out of range or an
/// offset entry past the end of the data.
pub open spec fn lookup(t: Thesaurus, idx: usize, max_chars: Option<usize>) -> Option<Seq<char>> {
    let entry = t.table_start() + 4 * (idx - 1);
    if idx == 0 || idx - 1 >= t.count() || entry + 4 > t.image().len() {
        None
    } else {
        let start = le_u32(t.image(), entry);
        if t.utf16() {
            Some(utf16_lossy(limited(utf16_record(t.image(), start), max_chars)))
        } else {
            Some(utf8_lossy(limited(utf8_record(t.image(), start), max_chars)))
        }
    }
}

fn utf8_record_exec(data: &Vec<u8>, start: usize) -> (r: Vec<u8>)
    ensures
        r@ == utf8_record(data@, start as int),
{
    let mut out: Vec<u8> = Vec::new();
    let mut p: usize = start;
    while p < data.len()
        invariant
            start <= p,
            utf8_record(data@, start as int) == out@ + utf8_record(data@, p as int),
        decreases data@.len() - p,
    {
        let b = data[p];
        if b == 0 {
            assert(out@ + Seq::<u8>::empty() =~= out@);
            return out;
        }
        out.push(b);
        assert(utf8_record(data@, p as int) == seq![b] + utf8_record(data@, p + 1));
        assert(out@ + utf8_record(data@, p + 1) =~= out@.drop_last() + (seq![b] + utf8_record(data@, p + 1)));
        p = p + 1;
    }
    assert(out@ + Seq::<u8>::empty() =~= out@);
    out
}

fn utf16_record_exec(data: &Vec<u8>, start: usize) -> (r: Vec<u16>)
    ensures
        r@ == utf16_record(data@, start as int),
{
    let mut out: Vec<u16> = Vec::new();
    let mut p: usize = start;
    while p < data.len() && data.len() - p >= 2
        invariant
            start <= p,
            utf16_record(data@, start as int) == out@ + utf16_record(data@, p as int),
        decreases data@.len() - p,
    {
        let u: u16 = data[p] as u16 + 256 * (data[p + 1] as u16);
        if u == 0 {
            assert(out@ + Seq::<u16>::empty() =~= out@);
            return out;
        }
        out.push(u);
        assert(utf16_record(data@, p as int) == seq![u] + utf16_record(data@, p + 2));
        assert(out@ + utf16_record(data@, p + 2) =~= out@.drop_last() + (seq![u] + utf16_record(data@, p + 2)));
        p = p + 2;
    }
    assert(out@ + Seq::<u16>::empty() =~= out@);
    out
}

fn limit<A>(v: &mut Vec<A>, max: Option<usize>)
    ensures
        final(v)@ == limited(old(v)@, max),
{
    match max {
        Some(m) => {
            if m < v.len() {
                v.truncate(m);
            }
        },
        None => {},
    }
}

impl Thesaurus {
    /// The string at 1-based index `idx`, cut to `max_chars` code units when
    /// given.
    pub fn get_string(&self, idx: usize, max_chars: Option<usize>) -> (r: Option<String>)
        requires
            self.wf(),
        ensures
            match r {
                Some(s) => lookup(*self, idx, max_chars) == Some(s@),
                None => lookup(*self, idx, max_chars) is None,
            },
    {
        if idx == 0 || idx - 1 >= self.max_strings {
            return None;
        }
        let entry: u64 = self.string_db_start as u64 + 4 * ((idx - 1) as u64);
        if entry + 4 > self.data.len() as u64 {
            return None;
        }
        let start = read_le_u32(&self.data, entry as usize);
        if self.is_utf16 {
            let mut units = utf16_record_exec(&self.data, start as usize);
            limit(&mut units, max_chars);
            Some(decode_utf16_lossy(units.as_slice()))
        } else {
            let mut bytes = utf8_record_exec(&self.data, start as usize);
            limit(&mut bytes, max_chars);
            Some(decode_utf8_lossy(bytes.as_slice()))
        }
    }
}

} // verus!
