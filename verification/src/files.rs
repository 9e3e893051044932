use crate::paths::{file_name_of, path_file_name};
use crate::sorting::{lemma_sort_listing, ordered, sort_entries, sort_listing};
use vstd::prelude::*;
use vstd::string::*;

verus! {

/// What kind of object an entry is. A symbolic link, a socket or a device is
/// neither a directory nor a regular file.
#[derive(Clone, Copy, Debug, PartialEq, Eq, Structural)]
pub enum FileType {
    Directory,
    File,
    Other,
}

impl FileType {
    /// Whether this is a directory.
    pub fn is_dir(&self) -> (b: bool)
        ensures
            b == (*self == FileType::Directory),
    {
        match self {
            FileType::Directory => true,
            _ => false,
        }
    }

    /// Whether this is a regular file.
    pub fn is_file(&self) -> (b: bool)
        ensures
            b == (*self == FileType::File),
    {
        match self {
            FileType::File => true,
            _ => false,
        }
    }
}

/// A moment in UTC: whole seconds since 1970-01-01 00:00:00 and the
/// nanoseconds within that second.
#[derive(Clone, Copy, Debug, PartialEq, Eq, Structural)]
pub struct Timestamp {
    pub secs: i64,
    pub nanos: u32,
}

/// The text of the moment `secs` seconds and `nanos` nanoseconds after
/// 1970-01-01 00:00:00 UTC under the strftime pattern `pattern`, as chrono
/// writes it; nothing where chrono cannot hold the moment or does not accept
/// the pattern.
pub uninterp spec fn utc_text(secs: i64, nanos: u32, pattern: Seq<char>) -> Option<Seq<char>>;

/// Calls chrono's `DateTime::from_timestamp`, `DateTime::format` and
/// `DelayedFormat::write_to`. The contract claims only that whether a text
/// comes back, and which, is determined by the three arguments: the moment is
/// in UTC and no locale takes part.
#[verifier::external_body]
fn format_utc(secs: i64, nanos: u32, pattern: &str) -> (text: Option<String>)
    ensures
        match text {
            Some(t) => utc_text(secs, nanos, pattern@) == Some(t@),
            None => utc_text(secs, nanos, pattern@) is None,
        },
{
    let moment = chrono::DateTime::from_timestamp(secs, nanos)?;
    let mut text = String::new();
    match moment.format(pattern).write_to(&mut text) {
        Ok(()) => Some(text),
        Err(_) => None,
    }
}

/// The text to show for a moment that was written as `written`: that text,
/// and an empty one where there is none.
pub fn text_or_blank(written: Option<String>) -> (text: String)
    ensures
        text@ == match written {
            Some(t) => t@,
            None => Seq::<char>::empty(),
        },
{
    match written {
        Some(t) => t,
        None => String::new(),
    }
}

impl Timestamp {
    /// The moment as a listing shows it: day, month and year, then hour and
    /// minute, in UTC.
    pub open spec fn label_text(&self) -> Seq<char> {
        match utc_text(self.secs, self.nanos, "%d/%m/%Y %H:%M"@) {
            Some(t) => t,
            None => Seq::<char>::empty(),
        }
    }

    /// The moment as a listing shows it, and an empty text for a moment
    /// that cannot be written.
    pub fn label(&self) -> (text: String)
        ensures
            text@ == self.label_text(),
    {
        text_or_blank(format_utc(self.secs, self.nanos, "%d/%m/%Y %H:%M"))
    }
}

/// Why a path could not be read.
#[derive(Debug, PartialEq, Eq)]
pub enum IoError {
    PathNotFound,
    NotADirectory,
    PermissionDenied,
    OtherIo(String),
}

impl IoError {
    /// An equal error, for a caller that keeps the one it has.
    pub fn duplicate(&self) -> (copy: IoError)
        ensures
            copy == *self,
    {
        match self {
            IoError::PathNotFound => IoError::PathNotFound,
            IoError::NotADirectory => IoError::NotADirectory,
            IoError::PermissionDenied => IoError::PermissionDenied,
            IoError::OtherIo(reason) => IoError::OtherIo(reason.clone()),
        }
    }

    /// A short text for the place where the listing would have been.
    pub fn message(&self) -> (text: String)
        ensures
            text@ == self.message_text(),
    {
        match self {
            IoError::PathNotFound => "path not found".to_owned(),
            IoError::NotADirectory => "not a directory".to_owned(),
            IoError::PermissionDenied => "permission denied".to_owned(),
            IoError::OtherIo(reason) => reason.clone(),
        }
    }

    /// The text of `message`.
    pub open spec fn message_text(&self) -> Seq<char> {
        match self {
            IoError::PathNotFound => "path not found"@,
            IoError::NotADirectory => "not a directory"@,
            IoError::PermissionDenied => "permission denied"@,
            IoError::OtherIo(reason) => reason@,
        }
    }
}

/// What the filesystem reports of one object when asked.
#[derive(Clone, Copy, Debug, PartialEq, Eq, Structural)]
pub struct Metadata {
    pub len: u64,
    pub file_type: FileType,
    pub created: Timestamp,
    pub modified: Timestamp,
    pub accessed: Timestamp,
}

/// One child of a directory as the filesystem lists it: its full path and its
/// metadata.
#[derive(Debug, PartialEq, Eq)]
pub struct Child {
    pub path: String,
    pub meta: Metadata,
}

/// What the filesystem answers when asked for the metadata of a path.
pub type Stat = Result<Metadata, IoError>;

/// What the filesystem answers when asked for the children of a directory:
/// the children as they come, each of which may have failed to be read, or
/// the failure to open the directory.
pub type Listing = Result<Vec<Result<Child, IoError>>, IoError>;

/// The metadata of one filesystem object as it was when it was read. An entry
/// is never patched: a new read makes new entries.
#[derive(Debug, PartialEq, Eq)]
pub struct FileEntry {
    pub len: u64,
    pub file_type: FileType,
    pub created: Timestamp,
    pub modified: Timestamp,
    pub accessed: Timestamp,
    pub path: String,
    pub file_name: String,
}

impl FileEntry {
    /// The name is the final component of the path.
    pub open spec fn wf(&self) -> bool {
        self.file_name@ == path_file_name(self.path@)
    }

    /// The bytes of the name, by which entries are ordered.
    pub open spec fn name_bytes(&self) -> Seq<u8> {
        vstd::utf8::encode_utf8(self.file_name@)
    }

    /// `self` describes the object at `path` with the metadata `meta`.
    pub open spec fn describes(&self, path: Seq<char>, meta: Metadata) -> bool {
        &&& self.path@ == path
        &&& self.file_name@ == path_file_name(path)
        &&& self.len == meta.len
        &&& self.file_type == meta.file_type
        &&& self.created == meta.created
        &&& self.modified == meta.modified
        &&& self.accessed == meta.accessed
    }

    /// The entry for the object at `path` with the metadata `meta`. Its name
    /// is the final component of `path`.
    pub fn new(path: &str, meta: Metadata) -> (entry: FileEntry)
        ensures
            entry.describes(path@, meta),
            entry.wf(),
    {
        FileEntry {
            len: meta.len,
            file_type: meta.file_type,
            created: meta.created,
            modified: meta.modified,
            accessed: meta.accessed,
            path: path.to_owned(),
            file_name: file_name_of(path),
        }
    }

    /// Whether the entry is a directory.
    pub fn is_dir(&self) -> (b: bool)
        ensures
            b == (self.file_type == FileType::Directory),
    {
        self.file_type.is_dir()
    }

    /// Whether the entry is a regular file.
    pub fn is_file(&self) -> (b: bool)
        ensures
            b == (self.file_type == FileType::File),
    {
        self.file_type.is_file()
    }

    /// The size as a listing shows it: that of a regular file in the units a
    /// person reads, and none for anything else.
    pub fn size_text(&self) -> (text: Option<String>)
        ensures
            match text {
                Some(t) => self.file_type == FileType::File && t@ == human_readable(
                    self.len as nat,
                ),
                None => self.file_type != FileType::File,
            },
    {
        if self.file_type.is_file() {
            Some(bytes_to_human_readable(self.len))
        } else {
            None
        }
    }

    /// Whether this entry meets `restriction`, where `is_main` says that the
    /// entry stands for the directory itself.
    pub fn fullfills(&self, restriction: &Restriction, is_main: bool) -> (b: bool)
        ensures
            b == restriction.holds(self.file_type == FileType::Directory, is_main),
        decreases *restriction,
    {
        match restriction {
            Restriction::Any => true,
            Restriction::Folder => self.file_type.is_dir(),
            Restriction::Main => is_main,
            Restriction::Not(inner) => !self.fullfills(inner, is_main),
        }
    }
}

/// A predicate over one entry and the context it is considered in.
#[derive(Debug, PartialEq, Eq)]
pub enum Restriction {
    /// Every entry.
    Any,
    /// Directories only.
    Folder,
    /// Only the directory that the tab shows, considered with nothing selected.
    Main,
    /// Exactly where the inner predicate fails.
    Not(Box<Restriction>),
}

impl Restriction {
    /// Whether the predicate holds of an entry that is a directory or not, as
    /// `is_dir` says, considered as the directory itself or not, as `is_main`
    /// says.
    pub open spec fn holds(&self, is_dir: bool, is_main: bool) -> bool
        decreases *self,
    {
        match self {
            Restriction::Any => true,
            Restriction::Folder => is_dir,
            Restriction::Main => is_main,
            Restriction::Not(inner) => !inner.holds(is_dir, is_main),
        }
    }

    /// An equal predicate.
    pub fn duplicate(&self) -> (copy: Restriction)
        ensures
            copy == *self,
        decreases *self,
    {
        match self {
            Restriction::Any => Restriction::Any,
            Restriction::Folder => Restriction::Folder,
            Restriction::Main => Restriction::Main,
            Restriction::Not(inner) => Restriction::Not(Box::new(inner.duplicate())),
        }
    }
}

/// A predicate negated twice holds exactly where the predicate holds.
pub proof fn double_negation(inner: Restriction, is_dir: bool, is_main: bool)
    ensures
        Restriction::Not(Box::new(Restriction::Not(Box::new(inner)))).holds(is_dir, is_main)
            == inner.holds(is_dir, is_main),
{
    let once = Restriction::Not(Box::new(inner));
    assert(once.holds(is_dir, is_main) == !inner.holds(is_dir, is_main));
}

/// The outcome of asking for the metadata of `path`: the entry for it, or the
/// error that the filesystem gave.
pub open spec fn meta_outcome(
    path: Seq<char>,
    stat: Stat,
    info: Result<FileEntry, IoError>,
) -> bool {
    match stat {
        Ok(meta) => info is Ok && info->Ok_0.describes(path, meta),
        Err(e) => info == Err::<FileEntry, IoError>(e),
    }
}

/// The entry for `path`, from what the filesystem answered when asked for its
/// metadata: the entry where it answered, its error where it did not.
pub fn get_meta(path: &str, stat: Stat) -> (info: Result<FileEntry, IoError>)
    ensures
        meta_outcome(path@, stat, info),
        info is Ok ==> info->Ok_0.wf(),
{
    match stat {
        Ok(meta) => Ok(FileEntry::new(path, meta)),
        Err(e) => Err(e),
    }
}

/// `raw` holds, in the order of `items`, one entry for each child listed.
pub open spec fn lists(raw: Seq<FileEntry>, items: Seq<Result<Child, IoError>>) -> bool {
    &&& raw.len() == items.len()
    &&& forall|i: int|
        0 <= i < raw.len() ==> (#[trigger] items[i]) is Ok && raw[i].describes(
            items[i]->Ok_0.path@,
            items[i]->Ok_0.meta,
        )
}

/// The child at `i` is the first that could not be read, and `e` is why.
pub open spec fn fails_first_at(items: Seq<Result<Child, IoError>>, i: int, e: IoError) -> bool {
    &&& 0 <= i < items.len()
    &&& items[i] == Err::<Child, IoError>(e)
    &&& forall|j: int| 0 <= j < i ==> (#[trigger] items[j]) is Ok
}

/// The outcome of listing a directory. A failure to open it, or the first
/// failure among its children, is the outcome, and no entry is given then;
/// otherwise the outcome holds one entry for each child, in order.
pub open spec fn entries_outcome(
    listing: Listing,
    entries: Result<Vec<FileEntry>, IoError>,
) -> bool {
    match listing {
        Err(e) => entries == Err::<Vec<FileEntry>, IoError>(e),
        Ok(items) => match entries {
            Err(e) => exists|i: int| #[trigger] fails_first_at(items@, i, e),
            Ok(found) => exists|raw: Seq<FileEntry>|
                #[trigger] lists(raw, items@) && found@ == sort_listing(raw),
        },
    }
}

/// Every entry of `s` has the final component of its path as its name.
pub open spec fn all_wf(s: Seq<FileEntry>) -> bool {
    forall|i: int| 0 <= i < s.len() ==> (#[trigger] s[i]).wf()
}

/// The listing of a directory, from what the filesystem gave: `listing` holds
/// its children as they came, or the error that opening it gave. The listing
/// is in order: what is not a regular file first, then the regular files, each
/// group by the bytes of the names. One child that could not be read fails the
/// whole listing with the error of the first such child.
pub fn get_entries(listing: Listing) -> (entries: Result<Vec<FileEntry>, IoError>)
    ensures
        entries_outcome(listing, entries),
        entries is Ok ==> ordered(entries->Ok_0@) && all_wf(entries->Ok_0@),
{
    match listing {
        Err(e) => Err(e),
        Ok(items) => {
            let mut files: Vec<FileEntry> = Vec::new();
            let mut i: usize = 0;
            while i < items.len()
                invariant
                    listing == Ok::<Vec<Result<Child, IoError>>, IoError>(items),
                    i <= items.len(),
                    lists(files@, items@.take(i as int)),
                    all_wf(files@),
                decreases items.len() - i,
            {
                match &items[i] {
                    Err(e) => {
                        let failure = e.duplicate();
                        proof {
                            assert forall|j: int| 0 <= j < i implies (#[trigger] items@[j]) is Ok by {
                                assert(items@.take(i as int)[j] is Ok);
                            }
                            assert(fails_first_at(listing->Ok_0@, i as int, failure));
                        }
                        return Err(failure);
                    },
                    Ok(child) => {
                        let entry = FileEntry::new(child.path.as_str(), child.meta);
                        files.push(entry);
                    },
                }
                i += 1;
            }
            let ghost raw = files@;
            let found = sort_entries(files);
            proof {
                broadcast use vstd::seq_lib::group_to_multiset_ensures;

                assert(items@.take(i as int) =~= items@);
                assert forall|k: int| 0 <= k < found@.len() implies (#[trigger] found@[k]).wf() by {
                    assert(found@.contains(found@[k]));
                    assert(raw.to_multiset().count(found@[k]) > 0);
                    assert(raw.contains(found@[k]));
                }
            }
            Ok(found)
        },
    }
}

/// A listing that a read gives holds one entry for each child that the
/// filesystem listed, and it is in order: whatever is not a regular file
/// stands before every regular file, and within each of the two groups no
/// name stands before a smaller one.
pub proof fn listing_is_in_order(
    listing: Listing,
    entries: Result<Vec<FileEntry>, IoError>,
)
    requires
        entries_outcome(listing, entries),
        entries is Ok,
    ensures
        listing is Ok,
        entries->Ok_0@.len() == listing->Ok_0@.len(),
        ordered(entries->Ok_0@),
{
    let raw = choose|raw: Seq<FileEntry>|
        #[trigger] lists(raw, listing->Ok_0@) && entries->Ok_0@ == sort_listing(raw);
    lemma_sort_listing(raw);
}

/// The digit `d` as a character.
pub open spec fn digit_char(d: nat) -> char {
    if d == 0 {
        '0'
    } else if d == 1 {
        '1'
    } else if d == 2 {
        '2'
    } else if d == 3 {
        '3'
    } else if d == 4 {
        '4'
    } else if d == 5 {
        '5'
    } else if d == 6 {
        '6'
    } else if d == 7 {
        '7'
    } else if d == 8 {
        '8'
    } else {
        '9'
    }
}

/// `n` in decimal, without leading zeros.
pub open spec fn decimal(n: nat) -> Seq<char>
    decreases n,
{
    if n < 10 {
        seq![digit_char(n)]
    } else {
        decimal(n / 10).push(digit_char(n % 10))
    }
}

/// `n / d` rounded to the nearest whole number, a tie going to the even one.
pub open spec fn round_half_even(n: nat, d: nat) -> nat {
    let q = n / d;
    let r = n % d;
    if 2 * r > d || (2 * r == d && q % 2 == 1) {
        q + 1
    } else {
        q
    }
}

/// The distance between neighbouring numbers that a significand of 53 binary
/// digits can hold, at the size of `n`, for `n` below 2^64.
pub open spec fn grain(n: nat) -> nat {
    if n < 0x20000000000000 {
        1
    } else if n < 0x40000000000000 {
        2
    } else if n < 0x80000000000000 {
        4
    } else if n < 0x100000000000000 {
        8
    } else if n < 0x200000000000000 {
        16
    } else if n < 0x400000000000000 {
        32
    } else if n < 0x800000000000000 {
        64
    } else if n < 0x1000000000000000 {
        128
    } else if n < 0x2000000000000000 {
        256
    } else if n < 0x4000000000000000 {
        512
    } else if n < 0x8000000000000000 {
        1024
    } else {
        2048
    }
}

/// `n` held to 53 significant binary digits, a tie going to the even
/// significand. Below 2^53 this is `n` itself.
pub open spec fn held(n: nat) -> nat {
    round_half_even(n, grain(n)) * grain(n)
}

/// How many whole `unit`s the size `bytes` is shown as.
pub open spec fn units_shown(bytes: nat, unit: nat) -> nat {
    round_half_even(held(bytes), unit)
}

/// The bytes in a kilobyte.
pub const KB: u64 = 1024;

/// The bytes in a megabyte.
pub const MB: u64 = 1048576;

/// The bytes in a gigabyte.
pub const GB: u64 = 1073741824;

/// The bytes in a terabyte.
pub const TB: u64 = 1099511627776;

/// A size as a person reads it: in the largest of TB, GB, MB and KB that it
/// reaches, rounded to a whole number of them, and in bytes below 1024.
pub open spec fn human_readable(bytes: nat) -> Seq<char> {
    if bytes >= TB {
        decimal(units_shown(bytes, TB as nat)) + " TB"@
    } else if bytes >= GB {
        decimal(units_shown(bytes, GB as nat)) + " GB"@
    } else if bytes >= MB {
        decimal(units_shown(bytes, MB as nat)) + " MB"@
    } else if bytes >= KB {
        decimal(units_shown(bytes, KB as nat)) + " KB"@
    } else {
        decimal(bytes) + " B"@
    }
}

/// The digit `d` as a text of one character.
fn digit_text(d: u128) -> (text: &'static str)
    requires
        d < 10,
    ensures
        text@ == seq![digit_char(d as nat)],
{
    proof {
        reveal_strlit("0");
        reveal_strlit("1");
        reveal_strlit("2");
        reveal_strlit("3");
        reveal_strlit("4");
        reveal_strlit("5");
        reveal_strlit("6");
        reveal_strlit("7");
        reveal_strlit("8");
        reveal_strlit("9");
    }
    let text = if d == 0 {
        "0"
    } else if d == 1 {
        "1"
    } else if d == 2 {
        "2"
    } else if d == 3 {
        "3"
    } else if d == 4 {
        "4"
    } else if d == 5 {
        "5"
    } else if d == 6 {
        "6"
    } else if d == 7 {
        "7"
    } else if d == 8 {
        "8"
    } else {
        "9"
    };
    assert(text@ =~= seq![digit_char(d as nat)]);
    text
}

/// Writes `n` in decimal behind `text`.
fn push_decimal(text: &mut String, n: u128)
    ensures
        final(text)@ == old(text)@ + decimal(n as nat),
    decreases n,
{
    if n >= 10 {
        push_decimal(text, n / 10);
    }
    text.append(digit_text(n % 10));
    proof {
        if n >= 10 {
            assert(final(text)@ =~= old(text)@ + decimal(n as nat));
        }
    }
}

/// `n / d` rounded to the nearest whole number, a tie going to the even one.
fn rounded(n: u128, d: u128) -> (q: u128)
    requires
        d > 0,
        n < u128::MAX,
    ensures
        q == round_half_even(n as nat, d as nat),
        q <= n + 1,
{
    let q = n / d;
    let r = n % d;
    proof {
        assert(n / d <= n) by (nonlinear_arith)
            requires
                d >= 1,
        ;
    }
    if r > d - r || (r == d - r && q % 2 == 1) {
        q + 1
    } else {
        q
    }
}

/// The grain at the size of `n`.
fn grain_of(n: u64) -> (g: u64)
    ensures
        g == grain(n as nat),
        1 <= g <= 2048,
{
    if n < 0x20000000000000 {
        1
    } else if n < 0x40000000000000 {
        2
    } else if n < 0x80000000000000 {
        4
    } else if n < 0x100000000000000 {
        8
    } else if n < 0x200000000000000 {
        16
    } else if n < 0x400000000000000 {
        32
    } else if n < 0x800000000000000 {
        64
    } else if n < 0x1000000000000000 {
        128
    } else if n < 0x2000000000000000 {
        256
    } else if n < 0x4000000000000000 {
        512
    } else if n < 0x8000000000000000 {
        1024
    } else {
        2048
    }
}

/// How many whole `unit`s the size `bytes` is shown as.
fn units_of(bytes: u64, unit: u64) -> (shown: u128)
    requires
        unit > 0,
    ensures
        shown == units_shown(bytes as nat, unit as nat),
{
    let g = grain_of(bytes);
    let q = rounded(bytes as u128, g as u128);
    proof {
        assert(q * g <= 0x1_0000_0000_0000_0000 * 2048) by (nonlinear_arith)
            requires
                q <= 0x1_0000_0000_0000_0000,
                g <= 2048,
        ;
    }
    let kept = q * (g as u128);
    rounded(kept, unit as u128)
}

/// A size in bytes as a person reads it. The number of units is the one that
/// division in binary floating point with a significand of 53 digits gives,
/// rounded to a whole number with a tie going to the even neighbour.
pub fn bytes_to_human_readable(bytes: u64) -> (text: String)
    ensures
        text@ == human_readable(bytes as nat),
{
    let mut text = String::new();
    if bytes >= TB {
        push_decimal(&mut text, units_of(bytes, TB));
        text.append(" TB");
    } else if bytes >= GB {
        push_decimal(&mut text, units_of(bytes, GB));
        text.append(" GB");
    } else if bytes >= MB {
        push_decimal(&mut text, units_of(bytes, MB));
        text.append(" MB");
    } else if bytes >= KB {
        push_decimal(&mut text, units_of(bytes, KB));
        text.append(" KB");
    } else {
        push_decimal(&mut text, bytes as u128);
        text.append(" B");
    }
    assert(text@ =~= human_readable(bytes as nat));
    text
}

} // verus!
