//! Picking the executable out of a Windows release zip: the first entry whose
//! name ends in `.exe` (ASCII case-insensitively), reduced to its file name,
//! with its decompressed bytes. Writing it to disk is the caller's part.
use crate::library_model::is_substring;
use crate::update::UpdateError;
use std::io::Cursor;
use std::io::Read;
use vstd::prelude::*;
use zip::ZipArchive;

verus! {

#[verifier::external_type_specification]
#[verifier::external_body]
#[verifier::reject_recursive_types(R)]
pub struct ExZipArchive<R>(ZipArchive<R>);

#[verifier::external_type_specification]
#[verifier::external_body]
#[verifier::reject_recursive_types(T)]
pub struct ExCursor<T>(Cursor<T>);

/// What `zip::ZipArchive::new` makes of `bytes`: `None` when they are not a
/// readable zip, else its entries in archive order. Each entry is seen as its
/// name; whether `ZipArchive::by_index` opens it (its local header parses and
/// its compression and encryption are supported); and its decompressed bytes
/// when it opens and reads to the end with a matching checksum.
pub uninterp spec fn zip_listing(bytes: Seq<u8>) -> Option<Seq<(Seq<char>, bool, Option<Seq<u8>>)>>;

/// What an opened archive holds: its entries in archive order, each seen as
/// in `zip_listing`.
pub uninterp spec fn zip_entries(a: ZipArchive<Cursor<Vec<u8>>>) -> Seq<(Seq<char>, bool, Option<Seq<u8>>)>;

/// `zip::ZipArchive::new` over an in-memory copy of `bytes`: succeeds exactly
/// when `bytes` are a readable zip, and then holds the entries named by
/// `zip_listing`. The error is rendered to its message.
#[verifier::external_body]
fn zip_open(bytes: &[u8]) -> (r: Result<ZipArchive<Cursor<Vec<u8>>>, String>)
    ensures
        r is Ok <==> zip_listing(bytes@) is Some,
        r matches Ok(a) ==> zip_listing(bytes@) == Some(zip_entries(a)),
{
    ZipArchive::new(Cursor::new(bytes.to_vec())).map_err(|e| e.to_string())
}

/// `zip::ZipArchive::len`: the number of entries.
#[verifier::external_body]
fn zip_len(a: &ZipArchive<Cursor<Vec<u8>>>) -> (n: usize)
    ensures
        n == zip_entries(*a).len(),
{
    a.len()
}

/// `zip::ZipArchive::by_index` and `ZipFile::name`: the name of entry `i`,
/// when the entry opens.
#[verifier::external_body]
fn zip_entry_name(a: &mut ZipArchive<Cursor<Vec<u8>>>, i: usize) -> (r: Result<String, String>)
    requires
        i < zip_entries(*old(a)).len(),
    ensures
        zip_entries(*final(a)) == zip_entries(*old(a)),
        r is Ok <==> zip_entries(*old(a))[i as int].1,
        r matches Ok(s) ==> s@ == zip_entries(*old(a))[i as int].0,
{
    match a.by_index(i) {
        Ok(entry) => Ok(entry.name().to_string()),
        Err(e) => Err(e.to_string()),
    }
}

/// `zip::ZipArchive::by_index` and `Read::read_to_end` on the entry: the
/// decompressed bytes of entry `i`, when it opens and reads to the end.
#[verifier::external_body]
fn zip_entry_bytes(a: &mut ZipArchive<Cursor<Vec<u8>>>, i: usize) -> (r: Result<Vec<u8>, String>)
    requires
        i < zip_entries(*old(a)).len(),
    ensures
        zip_entries(*final(a)) == zip_entries(*old(a)),
        r is Ok <==> (zip_entries(*old(a))[i as int].1 && zip_entries(*old(a))[i as int].2 is Some),
        r matches Ok(b) ==> zip_entries(*old(a))[i as int].2 == Some(b@),
{
    let mut entry = a.by_index(i).map_err(|e| e.to_string())?;
    let mut bytes = Vec::new();
    entry.read_to_end(&mut bytes).map_err(|e| e.to_string())?;
    Ok(bytes)
}

/// Whether `name` is a bare file name on every platform: not empty, no
/// separator (`/` or `\\`), no drive colon, and neither `.` nor `..`.
pub open spec fn plain_file_name(name: Seq<char>) -> bool {
    &&& name.len() > 0
    &&& !name.contains('/')
    &&& !name.contains('\\')
    &&& !name.contains(':')
    &&& name != seq!['.']
    &&& name != seq!['.', '.']
}

/// Whether `name`'s final component is the text after its last `/` on every
/// platform: it is not empty, holds no `\\` (a separator on Windows) and no
/// `:` (a Windows drive), does not start with `//` (a Windows share), and
/// ends in a character other than `/` or `.` (so its last component is
/// neither empty, `.` nor `..`).
pub open spec fn portable_path_name(name: Seq<char>) -> bool {
    &&& name.len() > 0
    &&& !name.contains('\\')
    &&& !name.contains(':')
    &&& !(name.len() >= 2 && name[0] == '/' && name[1] == '/')
    &&& name.last() != '/'
    &&& name.last() != '.'
}

/// The text after the last `/` of `s` (all of `s` when it holds none).
pub open spec fn after_last_slash(s: Seq<char>) -> Seq<char>
    decreases s.len(),
{
    if s.len() == 0 {
        s
    } else if s.last() == '/' {
        Seq::empty()
    } else {
        after_last_slash(s.drop_last()).push(s.last())
    }
}

/// What holds on every platform of `f`, the final component
/// `Path::file_name` finds in `name`: a non-empty run of `name` that is
/// neither `.` nor `..`; without a verbatim `\\` start it holds no `/`; and
/// when `name` ends in an ordinary character it is the tail of `name`.
pub open spec fn final_component_of(f: Seq<char>, name: Seq<char>) -> bool {
    &&& f.len() > 0
    &&& f != seq!['.']
    &&& f != seq!['.', '.']
    &&& is_substring(f, name)
    &&& (name.len() == 0 || name[0] != '\\') ==> !f.contains('/')
    &&& (name.len() > 0 && name[0] != '\\' && name.last() != '/' && name.last() != '\\'
        && name.last() != '.') ==> f.len() <= name.len() && name.subrange(
        name.len() - f.len(),
        name.len() as int,
    ) == f
}

/// `std::path::Path::file_name` of `name`: its final component, if any. The
/// contract states what holds on every platform: a found name is the final
/// component (see `final_component_of`), and a bare file name is its own
/// final component, and so is the text after the last `/` of a name whose
/// components are split at `/` alone on every platform (see
/// `portable_path_name`). Which other names have none (a name ending in `..`,
/// a root, a Windows share prefix) depends on the platform and is left
/// unstated.
#[verifier::external_body]
fn path_file_name(name: &str) -> (r: Option<String>)
    ensures
        r matches Some(f) ==> final_component_of(f@, name@),
        plain_file_name(name@) ==> r is Some && r.unwrap()@ == name@,
        portable_path_name(name@) ==> r is Some && r.unwrap()@ == after_last_slash(name@),
{
    std::path::Path::new(name).file_name().map(|f| f.to_string_lossy().into_owned())
}

/// ASCII lowercase of one character.
pub open spec fn ascii_lower(c: char) -> char {
    if 'A' <= c && c <= 'Z' {
        ((c as u32) + 32) as char
    } else {
        c
    }
}

/// Whether `name` ends in `.exe`, ASCII case-insensitively.
pub open spec fn is_exe_name_spec(name: Seq<char>) -> bool {
    &&& name.len() >= 4
    &&& ascii_lower(name[name.len() - 4]) == '.'
    &&& ascii_lower(name[name.len() - 3]) == 'e'
    &&& ascii_lower(name[name.len() - 2]) == 'x'
    &&& ascii_lower(name[name.len() - 1]) == 'e'
}

fn lower_is(c: char, want: char) -> (b: bool)
    requires
        'a' <= want <= 'z' || want == '.',
    ensures
        b == (ascii_lower(c) == want),
{
    if 'A' <= c && c <= 'Z' {
        let lc = ((c as u32) + 32) as u8 as char;
        assert(lc == ascii_lower(c)) by {
            assert(((c as u32) + 32) < 256);
        }
        lc == want
    } else {
        c == want
    }
}

/// Whether `name` ends in `.exe`, ASCII case-insensitively.
pub fn is_exe_name(name: &str) -> (b: bool)
    ensures
        b == is_exe_name_spec(name@),
{
    let n = name.unicode_len();
    if n < 4 {
        return false;
    }
    lower_is(name.get_char(n - 4), '.') && lower_is(name.get_char(n - 3), 'e') && lower_is(
        name.get_char(n - 2),
        'x',
    ) && lower_is(name.get_char(n - 1), 'e')
}

/// The position of the first entry named like an executable, or -1.
pub open spec fn first_exe(entries: Seq<(Seq<char>, bool, Option<Seq<u8>>)>) -> int
    decreases entries.len(),
{
    if entries.len() == 0 {
        -1
    } else if is_exe_name_spec(entries[0].0) {
        0
    } else {
        let rest = first_exe(entries.drop_first());
        if rest < 0 {
            -1
        } else {
            rest + 1
        }
    }
}

proof fn lemma_first_exe(entries: Seq<(Seq<char>, bool, Option<Seq<u8>>)>, i: int)
    requires
        0 <= i <= entries.len(),
        forall|j: int| 0 <= j < i ==> !is_exe_name_spec(#[trigger] entries[j].0),
    ensures
        i < entries.len() && is_exe_name_spec(entries[i].0) ==> first_exe(entries) == i,
        i == entries.len() ==> first_exe(entries) == -1,
    decreases i,
{
    if i > 0 {
        let rest = entries.drop_first();
        assert forall|j: int| 0 <= j < i - 1 implies !is_exe_name_spec(#[trigger] rest[j].0) by {
            assert(rest[j] == entries[j + 1]);
        }
        lemma_first_exe(rest, i - 1);
        if i < entries.len() {
            assert(rest[i - 1] == entries[i]);
        }
    } else if entries.len() == 0 {
    }
}

proof fn lemma_first_exe_props(entries: Seq<(Seq<char>, bool, Option<Seq<u8>>)>)
    ensures
        -1 <= first_exe(entries) < entries.len(),
        first_exe(entries) >= 0 ==> is_exe_name_spec(entries[first_exe(entries)].0),
        forall|j: int|
            0 <= j < entries.len() && (first_exe(entries) < 0 || j < first_exe(entries))
                ==> !is_exe_name_spec(#[trigger] entries[j].0),
    decreases entries.len(),
{
    if entries.len() > 0 {
        let rest = entries.drop_first();
        lemma_first_exe_props(rest);
        assert forall|j: int|
            0 <= j < entries.len() && (first_exe(entries) < 0 || j < first_exe(entries))
                implies !is_exe_name_spec(#[trigger] entries[j].0) by {
            if j > 0 {
                assert(entries[j] == rest[j - 1]);
            }
        }
        if first_exe(entries) > 0 {
            assert(entries[first_exe(entries)] == rest[first_exe(rest)]);
        }
    }
}

/// Whether the first entry named like an executable exists, every entry up
/// to it opens, and it reads to the end.
pub open spec fn exe_readable(entries: Seq<(Seq<char>, bool, Option<Seq<u8>>)>) -> bool {
    let k = first_exe(entries);
    &&& k >= 0
    &&& forall|j: int| 0 <= j <= k ==> #[trigger] entries[j].1
    &&& entries[k].2 is Some
}

/// Find the executable in a release zip: the file name of the first entry
/// named like an executable, and its decompressed bytes. Every failure is an
/// `Io` error: an unreadable zip, an entry before it that does not open, no
/// executable entry at all, an executable entry without a file name, or one
/// that does not read to the end. The file name is the final component of the
/// entry's name, so directory parts are stripped and it never names `.` or
/// `..`; for a name split at `/` alone on every platform it is the text after
/// the last `/`, and then a readable entry always yields `Ok`.
pub fn extract_exe_entry(zip_bytes: &[u8]) -> (r: Result<(String, Vec<u8>), UpdateError>)
    ensures
        r matches Err(e) ==> e is Io,
        r is Ok ==> zip_listing(zip_bytes@) is Some && exe_readable(zip_listing(zip_bytes@).unwrap()),
        r matches Ok((f, b)) ==> {
            let es = zip_listing(zip_bytes@).unwrap();
            let k = first_exe(es);
            &&& es[k].2 == Some(b@)
            &&& final_component_of(f@, es[k].0)
            &&& portable_path_name(es[k].0) ==> f@ == after_last_slash(es[k].0)
        },
        ({
            let es = zip_listing(zip_bytes@).unwrap();
            zip_listing(zip_bytes@) is Some && exe_readable(es) ==> r is Ok || !portable_path_name(
                es[first_exe(es)].0,
            )
        }),
{
    let mut archive = match zip_open(zip_bytes) {
        Ok(a) => a,
        Err(e) => {
            let mut m = String::from_str("cannot open release zip: ");
            m.append(e.as_str());
            return Err(UpdateError::Io(m));
        },
    };
    let ghost entries = zip_entries(archive);
    let n = zip_len(&archive);
    let mut i: usize = 0;
    while i < n
        invariant
            n == entries.len(),
            i <= n,
            zip_entries(archive) == entries,
            zip_listing(zip_bytes@) == Some(entries),
            forall|j: int| 0 <= j < i ==> !is_exe_name_spec(#[trigger] entries[j].0),
            forall|j: int| 0 <= j < i ==> #[trigger] entries[j].1,
        decreases n - i,
    {
        proof {
            lemma_first_exe_props(entries);
            if first_exe(entries) >= 0 && first_exe(entries) < i {
                assert(!is_exe_name_spec(entries[first_exe(entries)].0));
            }
        }
        let name = match zip_entry_name(&mut archive, i) {
            Ok(s) => s,
            Err(e) => {
                let mut m = String::from_str("cannot read zip entry ");
                crate::text::push_decimal(&mut m, i as u64);
                m.append(": ");
                m.append(e.as_str());
                return Err(UpdateError::Io(m));
            },
        };
        if !is_exe_name(name.as_str()) {
            i = i + 1;
            continue;
        }
        proof {
            lemma_first_exe(entries, i as int);
        }
        let file_name = match path_file_name(name.as_str()) {
            Some(f) => f,
            None => {
                return Err(UpdateError::Io(String::from_str("zip .exe entry has no file name")));
            },
        };
        let bytes = match zip_entry_bytes(&mut archive, i) {
            Ok(b) => b,
            Err(e) => {
                let mut m = String::from_str("cannot read zip .exe entry: ");
                m.append(e.as_str());
                return Err(UpdateError::Io(m));
            },
        };
        return Ok((file_name, bytes));
    }
    proof {
        lemma_first_exe(entries, n as int);
    }
    Err(UpdateError::Io(String::from_str("no .exe entry in release zip")))
}

} // verus!
