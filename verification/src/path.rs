use vstd::prelude::*;

verus! {

/// Best-effort file type of a directory entry, as enumeration reported it.
#[derive(Clone, Copy, PartialEq, Eq, Structural, Debug)]
pub enum EntryKind {
    File,
    Directory,
    Unknown,
}

/// One entry of a directory listing: its bare name and its file type.
#[derive(Debug)]
pub struct EntryInfo {
    pub name: String,
    pub kind: EntryKind,
}

/// A directory path, held as its sequence of components from the root.
#[derive(Debug)]
pub struct DirPath {
    pub components: Vec<String>,
}

impl View for DirPath {
    type V = Seq<Seq<char>>;

    open spec fn view(&self) -> Seq<Seq<char>> {
        self.components@.map_values(|s: String| s@)
    }
}

impl DirPath {
    pub fn new(components: Vec<String>) -> (r: DirPath)
        ensures
            r@ == components@.map_values(|s: String| s@),
    {
        DirPath { components }
    }

    /// A fresh path holding the same components.
    pub fn duplicate(&self) -> (r: DirPath)
        ensures
            r@ == self@,
    {
        let mut components: Vec<String> = Vec::new();
        let mut i: usize = 0;
        while i < self.components.len()
            invariant
                i <= self.components.len(),
                components@.len() == i,
                forall|j: int| 0 <= j < i ==> components@[j]@ == self.components@[j]@,
            decreases self.components.len() - i,
        {
            components.push(self.components[i].clone());
            i += 1;
        }
        let r = DirPath { components };
        proof {
            assert(r@ =~= self@);
        }
        r
    }

    /// The path one component deeper.
    pub fn join(&self, component: String) -> (r: DirPath)
        ensures
            r@ == self@.push(component@),
    {
        let mut r = self.duplicate();
        r.components.push(component);
        proof {
            assert(r@ =~= self@.push(component@));
        }
        r
    }
}

/// Lower-cases one ASCII letter; leaves every other character unchanged.
pub open spec fn lower_char(c: char) -> char {
    if 'A' <= c && c <= 'Z' {
        ((c as u8) + 32) as char
    } else {
        c
    }
}

/// Equality of two names up to ASCII letter casing.
pub open spec fn eq_ignore_ascii_case(a: Seq<char>, b: Seq<char>) -> bool {
    a.len() == b.len() && (forall|i: int|
        0 <= i < a.len() ==> lower_char(a[i]) == lower_char(b[i]))
}

/// The listing holds a file with exactly this name.
pub open spec fn listing_contains_file(listing: Seq<EntryInfo>, name: Seq<char>) -> bool {
    exists|i: int|
        0 <= i < listing.len() && listing[i].kind is File && listing[i].name@ == name
}

/// The listing holds a file with this name up to ASCII casing.
pub open spec fn listing_contains_file_ignore_case(
    listing: Seq<EntryInfo>,
    name: Seq<char>,
) -> bool {
    exists|i: int|
        0 <= i < listing.len() && listing[i].kind is File && eq_ignore_ascii_case(
            listing[i].name@,
            name,
        )
}

fn lower_char_exec(c: char) -> (r: char)
    ensures
        r == lower_char(c),
{
    if 'A' <= c && c <= 'Z' {
        ((c as u8) + 32) as char
    } else {
        c
    }
}

/// Character-for-character equality of two strings.
pub fn str_eq(a: &str, b: &str) -> (r: bool)
    ensures
        r == (a@ == b@),
{
    let a_len = a.unicode_len();
    let b_len = b.unicode_len();
    if a_len != b_len {
        assert(a@ != b@);
        return false;
    }
    let mut i: usize = 0;
    while i < a_len
        invariant
            i <= a_len,
            a_len == a@.len(),
            b_len == b@.len(),
            a_len == b_len,
            forall|j: int| 0 <= j < i ==> a@[j] == b@[j],
        decreases a_len - i,
    {
        if a.get_char(i) != b.get_char(i) {
            assert(a@[i as int] != b@[i as int]);
            return false;
        }
        i += 1;
    }
    proof {
        assert(a@ =~= b@);
    }
    true
}

/// Whether the listing holds a file with exactly the given name.
pub fn listing_has_file(listing: &Vec<EntryInfo>, file_name: &str) -> (r: bool)
    ensures
        r == listing_contains_file(listing@, file_name@),
{
    let mut i: usize = 0;
    while i < listing.len()
        invariant
            i <= listing.len(),
            forall|j: int|
                0 <= j < i ==> !(listing@[j].kind is File && listing@[j].name@ == file_name@),
        decreases listing.len() - i,
    {
        let entry = &listing[i];
        if matches!(entry.kind, EntryKind::File) && str_eq(entry.name.as_str(), file_name) {
            return true;
        }
        i += 1;
    }
    false
}

/// Equality of two strings up to ASCII letter casing.
pub fn str_eq_ignore_ascii_case(a: &str, b: &str) -> (r: bool)
    ensures
        r == eq_ignore_ascii_case(a@, b@),
{
    let a_len = a.unicode_len();
    let b_len = b.unicode_len();
    if a_len != b_len {
        return false;
    }
    let mut i: usize = 0;
    while i < a_len
        invariant
            i <= a_len,
            a_len == a@.len(),
            b_len == b@.len(),
            a_len == b_len,
            forall|j: int| 0 <= j < i ==> lower_char(a@[j]) == lower_char(b@[j]),
        decreases a_len - i,
    {
        if lower_char_exec(a.get_char(i)) != lower_char_exec(b.get_char(i)) {
            return false;
        }
        i += 1;
    }
    true
}

/// Utility functions on directory paths.
pub trait PathEx {
    spec fn spec_file_name(&self) -> Seq<char>;

    /// The final path component, or an empty string for a path with none.
    fn file_name_truncate(&self) -> (r: String)
        ensures
            r@ == self.spec_file_name(),
    ;

    /// Whether this directory holds a file with the given name, ignoring the
    /// name's ASCII casing. The directory's listing is supplied by the caller,
    /// which enumerated the path; entries it could not read are simply absent.
    fn contains_file_ignore_case(&self, listing: &Vec<EntryInfo>, file_name: &str) -> (r: bool)
        ensures
            r == listing_contains_file_ignore_case(listing@, file_name@),
    ;
}

impl PathEx for DirPath {
    open spec fn spec_file_name(&self) -> Seq<char> {
        if self@.len() > 0 {
            self@.last()
        } else {
            Seq::empty()
        }
    }

    fn file_name_truncate(&self) -> (r: String)
        ensures
            r@ == self.spec_file_name(),
    {
        if self.components.len() > 0 {
            self.components[self.components.len() - 1].clone()
        } else {
            String::new()
        }
    }

    fn contains_file_ignore_case(&self, listing: &Vec<EntryInfo>, file_name: &str) -> (r: bool)
        ensures
            r == listing_contains_file_ignore_case(listing@, file_name@),
    {
        let mut i: usize = 0;
        while i < listing.len()
            invariant
                i <= listing.len(),
                forall|j: int|
                    0 <= j < i ==> !(listing@[j].kind is File && eq_ignore_ascii_case(
                        listing@[j].name@,
                        file_name@,
                    )),
            decreases listing.len() - i,
        {
            let entry = &listing[i];
            if matches!(entry.kind, EntryKind::File)
                && str_eq_ignore_ascii_case(entry.name.as_str(), file_name) {
                return true;
            }
            i += 1;
        }
        false
    }
}

/// Utility queries on walker entries.
pub trait DirEntryEx {
    spec fn spec_is_file(&self) -> bool;

    spec fn spec_is_dir(&self) -> bool;

    fn is_file(&self) -> (r: bool)
        ensures
            r == self.spec_is_file(),
    ;

    fn is_dir(&self) -> (r: bool)
        ensures
            r == self.spec_is_dir(),
    ;
}

} // verus!
