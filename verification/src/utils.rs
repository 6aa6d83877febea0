//! How the program runs and how pictures are coloured.

use vstd::prelude::*;
use vstd::string::*;

verus! {

/// What the program does with its arguments.
#[derive(Debug, Clone, Copy, PartialEq, Eq, Structural)]
pub enum RunMode {
    /// Print one picture and leave.
    CLI,
    /// Browse a directory.
    TUI,
}

/// How a pixel becomes a cell colour.
#[derive(Debug, Clone, Copy, PartialEq, Eq, Structural)]
pub enum ImageMode {
    /// The pixel's own red, green and blue.
    Rgba,
    /// A gray of the pixel's luma.
    GrayScale,
}

/// One entry of a directory listing, as the browser needs it.
#[derive(Debug)]
pub struct ImagePath {
    /// The path by which the file is opened.
    pub path: String,
    /// The last component of the path.
    pub file_name: String,
    /// What follows the last dot of the file name, if anything does.
    pub extension: Option<String>,
}

impl ImagePath {
    /// A copy of this entry.
    pub fn duplicate(&self) -> (copy: ImagePath)
        ensures
            copy == *self,
    {
        let extension = match &self.extension {
            Some(ext) => Some(ext.clone()),
            None => None,
        };
        ImagePath { path: self.path.clone(), file_name: self.file_name.clone(), extension }
    }
}

/// A copy of the list, entry by entry.
pub fn duplicate_paths(paths: &Vec<ImagePath>) -> (copy: Vec<ImagePath>)
    ensures
        copy@ == paths@,
{
    let mut copy: Vec<ImagePath> = Vec::new();
    let mut i: usize = 0;
    while i < paths.len()
        invariant
            i <= paths.len(),
            copy@ == paths@.take(i as int),
        decreases paths.len() - i,
    {
        copy.push(paths[i].duplicate());
        assert(paths@.take(i + 1) =~= paths@.take(i as int).push(paths@[i as int]));
        i += 1;
    }
    assert(paths@.take(paths@.len() as int) =~= paths@);
    copy
}

/// `String::push` of std: the character is appended and nothing else changes.
#[verifier::external_body]
pub(crate) fn push_char(text: &mut String, c: char)
    ensures
        final(text)@ == old(text)@.push(c),
{
    text.push(c);
}

/// `String::pop` of std: the last character is removed and returned; an empty
/// string stays as it is and gives `None`.
#[verifier::external_body]
pub(crate) fn pop_char(text: &mut String) -> (last: Option<char>)
    ensures
        old(text)@.len() == 0 ==> last is None && final(text)@ == old(text)@,
        old(text)@.len() > 0 ==> last == Some(old(text)@.last()) && final(text)@ == old(
            text,
        )@.drop_last(),
{
    text.pop()
}

/// The character of a decimal digit.
pub open spec fn digit_char(d: int) -> char {
    ((48 + d) as u8) as char
}

/// A number in decimal digits, without leading zeros.
pub open spec fn decimal_text(n: nat) -> Seq<char>
    decreases n,
{
    if n < 10 {
        seq![digit_char(n as int)]
    } else {
        decimal_text(n / 10).push(digit_char((n % 10) as int))
    }
}

/// Adds the decimal digits of `n` to the end of `text`.
pub fn push_decimal(text: &mut String, n: u32)
    ensures
        final(text)@ == old(text)@ + decimal_text(n as nat),
    decreases n,
{
    if n >= 10 {
        push_decimal(text, n / 10);
    }
    let d: u8 = (n % 10) as u8;
    push_char(text, (48 + d) as char);
    assert(text@ =~= old(text)@ + decimal_text(n as nat));
}

/// Whether a file with this extension is taken for a picture: the extension
/// is one of `png`, `jpg`, `jpeg`, `webp`, `bmp`, `gif`, in lower case.
pub open spec fn picture_extension(ext: Seq<char>) -> bool {
    ext == "png"@ || ext == "jpg"@ || ext == "jpeg"@ || ext == "webp"@ || ext == "bmp"@ || ext
        == "gif"@
}

/// Whether an entry is taken for a picture: it has an extension, and that is
/// a picture's.
pub open spec fn is_picture(entry: ImagePath) -> bool {
    entry.extension matches Some(ext) && picture_extension(ext@)
}

/// Whether a file with this extension is taken for a picture.
pub fn is_picture_extension(ext: &String) -> (yes: bool)
    ensures
        yes == picture_extension(ext@),
{
    *ext == "png".to_owned() || *ext == "jpg".to_owned() || *ext == "jpeg".to_owned() || *ext
        == "webp".to_owned() || *ext == "bmp".to_owned() || *ext == "gif".to_owned()
}

/// Whether `a` comes before `b` when byte strings are compared byte by byte,
/// a proper prefix coming first.
pub open spec fn bytes_before(a: Seq<u8>, b: Seq<u8>) -> bool
    decreases a.len(),
{
    if b.len() == 0 {
        false
    } else if a.len() == 0 {
        true
    } else if a[0] != b[0] {
        a[0] < b[0]
    } else {
        bytes_before(a.drop_first(), b.drop_first())
    }
}

/// The bytes of an entry's file name, in UTF-8.
pub open spec fn name_bytes(entry: ImagePath) -> Seq<u8> {
    vstd::utf8::encode_utf8(entry.file_name@)
}

/// Whether entry `a` comes before entry `b` in a listing: by the bytes of
/// the file names.
pub open spec fn name_before(a: ImagePath, b: ImagePath) -> bool {
    bytes_before(name_bytes(a), name_bytes(b))
}

/// Of two byte strings at most one comes before the other.
pub proof fn lemma_bytes_before_asymmetric(a: Seq<u8>, b: Seq<u8>)
    requires
        bytes_before(a, b),
    ensures
        !bytes_before(b, a),
    decreases a.len(),
{
    if a.len() > 0 && b.len() > 0 && a[0] == b[0] {
        lemma_bytes_before_asymmetric(a.drop_first(), b.drop_first());
    }
}

/// If `a` comes before `c`, then whatever `b` is, `a` comes before `b` or `b`
/// before `c`.
pub proof fn lemma_bytes_before_between(a: Seq<u8>, b: Seq<u8>, c: Seq<u8>)
    requires
        bytes_before(a, c),
    ensures
        bytes_before(a, b) || bytes_before(b, c),
    decreases a.len(),
{
    if b.len() == 0 || a.len() == 0 {
    } else if a[0] != c[0] {
    } else if a[0] != b[0] {
    } else {
        lemma_bytes_before_between(a.drop_first(), b.drop_first(), c.drop_first());
    }
}

/// Whether `a` comes before `b`, byte by byte.
fn bytes_less(a: &[u8], b: &[u8]) -> (less: bool)
    ensures
        less == bytes_before(a@, b@),
{
    let mut i: usize = 0;
    assert(a@.skip(0) =~= a@ && b@.skip(0) =~= b@);
    while i < a.len() && i < b.len()
        invariant
            i <= a@.len(),
            i <= b@.len(),
            bytes_before(a@, b@) == bytes_before(a@.skip(i as int), b@.skip(i as int)),
        decreases a@.len() - i,
    {
        proof {
            assert(a@.skip(i as int).drop_first() =~= a@.skip(i + 1));
            assert(b@.skip(i as int).drop_first() =~= b@.skip(i + 1));
            assert(a@.skip(i as int)[0] == a@[i as int]);
            assert(b@.skip(i as int)[0] == b@[i as int]);
        }
        if a[i] != b[i] {
            return a[i] < b[i];
        }
        i += 1;
    }
    i < b.len()
}

/// Whether entry `a` comes before entry `b` in a listing.
pub fn comes_before(a: &ImagePath, b: &ImagePath) -> (before: bool)
    ensures
        before == name_before(*a, *b),
{
    bytes_less(a.file_name.as_str().as_bytes(), b.file_name.as_str().as_bytes())
}

/// Where `entry` goes into `listing`: behind the last entry that it does not
/// come before, reading from the end.
pub open spec fn insert_position(listing: Seq<ImagePath>, entry: ImagePath) -> int
    decreases listing.len(),
{
    if listing.len() == 0 {
        0
    } else if name_before(entry, listing.last()) {
        insert_position(listing.drop_last(), entry)
    } else {
        listing.len() as int
    }
}

/// The entries in listing order: by file name, entries of one name in the
/// order in which they came.
pub open spec fn listing_order(entries: Seq<ImagePath>) -> Seq<ImagePath>
    decreases entries.len(),
{
    if entries.len() == 0 {
        Seq::empty()
    } else {
        let sorted = listing_order(entries.drop_last());
        sorted.insert(insert_position(sorted, entries.last()), entries.last())
    }
}

/// Whether no entry comes before an earlier one.
pub open spec fn in_name_order(listing: Seq<ImagePath>) -> bool {
    forall|i: int, j: int|
        0 <= i < j < listing.len() ==> !name_before(#[trigger] listing[j], #[trigger] listing[i])
}

/// The pictures among the entries, in listing order.
pub open spec fn picture_listing(entries: Seq<ImagePath>) -> Seq<ImagePath> {
    listing_order(entries.filter(|e: ImagePath| is_picture(e)))
}

/// The insert position lies inside the listing; the entry comes before every
/// entry behind it, and not before the entry in front of it.
pub proof fn lemma_insert_position(listing: Seq<ImagePath>, entry: ImagePath)
    ensures
        0 <= insert_position(listing, entry) <= listing.len(),
        forall|k: int|
            insert_position(listing, entry) <= k < listing.len() ==> name_before(
                entry,
                #[trigger] listing[k],
            ),
        insert_position(listing, entry) > 0 ==> !name_before(
            entry,
            listing[insert_position(listing, entry) - 1],
        ),
    decreases listing.len(),
{
    if listing.len() > 0 && name_before(entry, listing.last()) {
        let front = listing.drop_last();
        lemma_insert_position(front, entry);
        assert forall|k: int|
            insert_position(listing, entry) <= k < listing.len() implies name_before(
            entry,
            #[trigger] listing[k],
        ) by {
            if k < front.len() {
                assert(front[k] == listing[k]);
            }
        }
    }
}

/// Listing order is by name: no entry of it comes before an earlier one.
pub proof fn lemma_listing_in_name_order(entries: Seq<ImagePath>)
    ensures
        in_name_order(listing_order(entries)),
        listing_order(entries).len() == entries.len(),
    decreases entries.len(),
{
    if entries.len() > 0 {
        let sorted = listing_order(entries.drop_last());
        let entry = entries.last();
        let pos = insert_position(sorted, entry);
        lemma_listing_in_name_order(entries.drop_last());
        lemma_insert_position(sorted, entry);
        let out = sorted.insert(pos, entry);
        assert forall|i: int, j: int| 0 <= i < j < out.len() implies !name_before(
            #[trigger] out[j],
            #[trigger] out[i],
        ) by {
            if j == pos {
                assert(out[j] == entry && out[i] == sorted[i]);
                if i < pos - 1 && name_before(entry, sorted[i]) {
                    assert(!name_before(sorted[pos - 1], sorted[i]));
                    lemma_bytes_before_between(
                        name_bytes(entry),
                        name_bytes(sorted[pos - 1]),
                        name_bytes(sorted[i]),
                    );
                }
            } else if i == pos {
                assert(out[i] == entry && out[j] == sorted[j - 1]);
                assert(name_before(entry, sorted[j - 1]));
                lemma_bytes_before_asymmetric(name_bytes(entry), name_bytes(sorted[j - 1]));
            } else {
                let si = if i < pos { i } else { i - 1 };
                let sj = if j < pos { j } else { j - 1 };
                assert(out[i] == sorted[si] && out[j] == sorted[sj]);
                assert(si < sj);
            }
        }
    }
}

/// Listing order keeps every entry, as often as it came.
pub proof fn lemma_listing_keeps_entries(entries: Seq<ImagePath>)
    ensures
        listing_order(entries).to_multiset() == entries.to_multiset(),
    decreases entries.len(),
{
    broadcast use vstd::seq_lib::to_multiset_insert, vstd::seq_lib::to_multiset_build;

    if entries.len() == 0 {
        assert(listing_order(entries) =~= entries);
    } else {
        let sorted = listing_order(entries.drop_last());
        let entry = entries.last();
        lemma_listing_keeps_entries(entries.drop_last());
        lemma_insert_position(sorted, entry);
        assert(entries =~= entries.drop_last().push(entry));
        assert(sorted.insert(insert_position(sorted, entry), entry).to_multiset()
            =~= sorted.to_multiset().insert(entry));
        assert(entries.drop_last().push(entry).to_multiset() =~= entries.drop_last().to_multiset().insert(
            entry,
        ));
    }
}

/// Puts `entry` into `listing` at its insert position.
fn insert_entry(listing: &mut Vec<ImagePath>, entry: ImagePath)
    ensures
        final(listing)@ == old(listing)@.insert(insert_position(old(listing)@, entry), entry),
{
    let mut pos: usize = listing.len();
    assert(listing@.take(pos as int) =~= listing@);
    while pos > 0 && comes_before(&entry, &listing[pos - 1])
        invariant
            pos <= listing@.len(),
            *listing == *old(listing),
            insert_position(listing@, entry) == insert_position(listing@.take(pos as int), entry),
        decreases pos,
    {
        proof {
            assert(listing@.take(pos as int).last() == listing@[pos - 1]);
            assert(listing@.take(pos as int).drop_last() =~= listing@.take(pos - 1));
        }
        pos -= 1;
    }
    proof {
        if pos > 0 {
            assert(listing@.take(pos as int).last() == listing@[pos - 1]);
        }
    }
    listing.insert(pos, entry);
}

/// The pictures among the entries of a directory, in listing order: those
/// with a picture's extension, by file name, entries of one name in the order
/// in which they came.
pub fn get_image_paths(entries: Vec<ImagePath>) -> (listing: Vec<ImagePath>)
    ensures
        listing@ == picture_listing(entries@),
        in_name_order(listing@),
        listing@.to_multiset() == entries@.filter(|e: ImagePath| is_picture(e)).to_multiset(),
        forall|i: int| 0 <= i < listing@.len() ==> is_picture(#[trigger] listing@[i]),
{
    let ghost pred = |e: ImagePath| is_picture(e);
    let mut listing: Vec<ImagePath> = Vec::new();
    let mut i: usize = 0;
    proof {
        reveal(Seq::filter);
        assert(entries@.take(0).filter(pred) =~= Seq::<ImagePath>::empty());
    }
    while i < entries.len()
        invariant
            i <= entries.len(),
            pred == |e: ImagePath| is_picture(e),
            listing@ == listing_order(entries@.take(i as int).filter(pred)),
        decreases entries.len() - i,
    {
        let entry = &entries[i];
        proof {
            reveal(Seq::filter);
            assert(entries@.take(i + 1).drop_last() =~= entries@.take(i as int));
            assert(entries@.take(i + 1).last() == entries@[i as int]);
            let kept = entries@.take(i as int).filter(pred);
            if pred(entries@[i as int]) {
                assert(kept.push(entries@[i as int]).drop_last() =~= kept);
            }
        }
        let keep = match &entry.extension {
            Some(ext) => is_picture_extension(ext),
            None => false,
        };
        if keep {
            insert_entry(&mut listing, entry.duplicate());
        }
        i += 1;
    }
    proof {
        assert(entries@.take(entries@.len() as int) =~= entries@);
        let kept = entries@.filter(pred);
        lemma_listing_in_name_order(kept);
        lemma_listing_keeps_entries(kept);
        assert forall|k: int| 0 <= k < listing@.len() implies is_picture(
            #[trigger] listing@[k],
        ) by {
            broadcast use vstd::seq_lib::to_multiset_contains;

            assert(listing@.contains(listing@[k]));
            assert(kept.to_multiset().count(listing@[k]) > 0);
            assert(kept.contains(listing@[k]));
            entries@.lemma_filter_contains_rev(pred, listing@[k]);
        }
    }
    listing
}

/// What the program learned of one command-line argument.
#[derive(Debug)]
pub enum Argument {
    /// It names a directory.
    Directory,
    /// It names something else, with this extension.
    File { extension: Option<String> },
}

/// The arguments name neither a directory nor a single picture.
#[derive(Debug, Clone, Copy, PartialEq, Eq, Structural)]
pub struct UsageError;

impl UsageError {
    /// The line printed for this error.
    pub fn message(&self) -> (text: &'static str)
        ensures
            text@ == "The argument must be a directory or a single image file."@,
    {
        "The argument must be a directory or a single image file."
    }
}

/// The mode that these arguments ask for.
pub open spec fn mode_of(args: Seq<Argument>) -> Result<RunMode, UsageError> {
    if args.len() == 0 {
        Ok(RunMode::TUI)
    } else if args.len() == 1 {
        match args[0] {
            Argument::Directory => Ok(RunMode::TUI),
            Argument::File { extension: Some(ext) } => if picture_extension(ext@) {
                Ok(RunMode::CLI)
            } else {
                Err(UsageError)
            },
            Argument::File { extension: None } => Err(UsageError),
        }
    } else {
        Err(UsageError)
    }
}

/// Chooses the mode: browsing without an argument or with a directory,
/// printing with a single picture file; anything else is a usage error.
pub fn select_mode(args: &Vec<Argument>) -> (mode: Result<RunMode, UsageError>)
    ensures
        mode == mode_of(args@),
{
    if args.len() == 0 {
        Ok(RunMode::TUI)
    } else if args.len() == 1 {
        match &args[0] {
            Argument::Directory => Ok(RunMode::TUI),
            Argument::File { extension: Some(ext) } => {
                if is_picture_extension(ext) {
                    Ok(RunMode::CLI)
                } else {
                    Err(UsageError)
                }
            },
            Argument::File { extension: None } => Err(UsageError),
        }
    } else {
        Err(UsageError)
    }
}

} // verus!
