//! Migration directories: each is named by a zero-padded sequence number and
//! a slug, so that the directories sort by name in the order they were made.

use crate::files::{join_path, joined, listing, DirectoryEntry, DirectoryEntryView};
use crate::naming::{snake_case_of, to_snake_case};
use crate::text::{chars_of, push_range, string_of};
use vstd::prelude::*;

verus! {

/// The least width of the sequence number in a directory name.
pub const SEQUENCE_WIDTH: usize = 14;

/// The character of the decimal digit `d`.
pub open spec fn digit(d: nat) -> char {
    (0x30 + d) as u8 as char
}

/// `n` in decimal, without leading zeros.
pub open spec fn decimal(n: nat) -> Seq<char>
    decreases n,
{
    if n < 10 {
        seq![digit(n)]
    } else {
        decimal(n / 10).push(digit(n % 10))
    }
}

/// `count` zeros.
pub open spec fn zeros(count: nat) -> Seq<char> {
    Seq::new(count, |i: int| '0')
}

/// `n` in decimal, with zeros in front of it where it has fewer than `width`
/// digits.
pub open spec fn zero_padded(n: nat, width: nat) -> Seq<char> {
    if decimal(n).len() >= width {
        decimal(n)
    } else {
        zeros((width - decimal(n).len()) as nat) + decimal(n)
    }
}

/// The name of the migration directory with the given number and slug.
pub open spec fn directory_name(sequence_number: nat, slug: Seq<char>) -> Seq<char> {
    zero_padded(sequence_number, SEQUENCE_WIDTH as nat) + seq!['_'] + slug
}

/// How many of `entries` are directories.
pub open spec fn count_directories(entries: Seq<DirectoryEntryView>) -> nat
    decreases entries.len(),
{
    if entries.len() == 0 {
        0
    } else {
        count_directories(entries.drop_last()) + if entries.last().is_directory {
            1nat
        } else {
            0nat
        }
    }
}

/// `a` sorts strictly before `b` in the order of strings: where the two
/// first differ `a` has the lower character, or `a` ends there and `b` goes
/// on.
pub open spec fn sorts_before(a: Seq<char>, b: Seq<char>) -> bool {
    exists|k: int|
        {
            &&& 0 <= k <= a.len()
            &&& k < b.len()
            &&& #[trigger] a.take(k) == b.take(k)
            &&& (k == a.len() || (a[k] as u32) < (b[k] as u32))
        }
}

/// Ten to the power `exponent`.
pub open spec fn power_of_ten(exponent: nat) -> nat
    decreases exponent,
{
    if exponent == 0 {
        1
    } else {
        10 * power_of_ten((exponent - 1) as nat)
    }
}

/// The last `width` decimal digits of `n`.
pub open spec fn last_digits(n: nat, width: nat) -> Seq<char>
    decreases width,
{
    if width == 0 {
        Seq::empty()
    } else {
        last_digits(n / 10, (width - 1) as nat).push(digit(n % 10))
    }
}

proof fn lemma_last_digits_len(n: nat, width: nat)
    ensures
        last_digits(n, width).len() == width,
    decreases width,
{
    if width > 0 {
        lemma_last_digits_len(n / 10, (width - 1) as nat);
    }
}

proof fn lemma_last_digits_of_zero(width: nat)
    ensures
        last_digits(0, width) == zeros(width),
    decreases width,
{
    if width > 0 {
        lemma_last_digits_of_zero((width - 1) as nat);
        assert(zeros((width - 1) as nat).push(digit(0)) =~= zeros(width));
    } else {
        assert(last_digits(0, width) =~= zeros(width));
    }
}

proof fn lemma_decimal_len(n: nat, width: nat)
    requires
        width >= 1,
        n < power_of_ten(width),
    ensures
        1 <= decimal(n).len() <= width,
    decreases width,
{
    if n >= 10 {
        assert(width >= 2) by {
            reveal_with_fuel(power_of_ten, 2);
        }
        lemma_decimal_len(n / 10, (width - 1) as nat);
    }
}

/// A number with at most `width` digits, padded to `width`, is its last
/// `width` digits.
pub proof fn lemma_zero_padded_is_last_digits(n: nat, width: nat)
    requires
        width >= 1,
        n < power_of_ten(width),
    ensures
        zero_padded(n, width) == last_digits(n, width),
        zero_padded(n, width).len() == width,
    decreases width,
{
    lemma_last_digits_len(n, width);
    lemma_decimal_len(n, width);
    if n < 10 {
        lemma_last_digits_of_zero((width - 1) as nat);
        assert(zeros((width - 1) as nat) + seq![digit(n)] =~= zeros((width - 1) as nat).push(
            digit(n),
        ));
        if width == 1 {
            assert(zeros(0).push(digit(n)) =~= seq![digit(n)]);
        }
    } else {
        assert(width >= 2) by {
            reveal_with_fuel(power_of_ten, 2);
        }
        let shorter = (width - 1) as nat;
        lemma_zero_padded_is_last_digits(n / 10, shorter);
        lemma_decimal_len(n / 10, shorter);
        let lead = zeros((shorter - decimal(n / 10).len()) as nat);
        assert(lead + decimal(n / 10).push(digit(n % 10)) =~= (lead + decimal(n / 10)).push(
            digit(n % 10),
        ));
        if decimal(n / 10).len() == shorter {
            assert(lead + decimal(n / 10) =~= decimal(n / 10));
        }
    }
}

proof fn lemma_last_digits_order(a: nat, b: nat, width: nat)
    requires
        a < b < power_of_ten(width),
    ensures
        exists|k: int|
            {
                &&& 0 <= k < width
                &&& #[trigger] last_digits(a, width).take(k) == last_digits(b, width).take(k)
                &&& (last_digits(a, width)[k] as u32) < (last_digits(b, width)[k] as u32)
            },
    decreases width,
{
    let shorter = (width - 1) as nat;
    let (head_a, head_b) = (last_digits(a / 10, shorter), last_digits(b / 10, shorter));
    lemma_last_digits_len(a / 10, shorter);
    lemma_last_digits_len(b / 10, shorter);
    if a / 10 < b / 10 {
        lemma_last_digits_order(a / 10, b / 10, shorter);
        let k = choose|k: int|
            {
                &&& 0 <= k < shorter
                &&& #[trigger] head_a.take(k) == head_b.take(k)
                &&& (head_a[k] as u32) < (head_b[k] as u32)
            };
        assert(last_digits(a, width).take(k) =~= head_a.take(k));
        assert(last_digits(b, width).take(k) =~= head_b.take(k));
    } else {
        let k = shorter as int;
        assert(last_digits(a, width).take(k) =~= head_a);
        assert(last_digits(b, width).take(k) =~= head_b);
        assert(a % 10 < b % 10);
    }
}

/// Directory names sort as their numbers do, whatever the slugs are, for
/// every number that fits in fourteen digits.
pub proof fn lemma_directory_names_sort_by_number(
    a: nat,
    slug_a: Seq<char>,
    b: nat,
    slug_b: Seq<char>,
)
    requires
        a < b < 100_000_000_000_000,
    ensures
        sorts_before(directory_name(a, slug_a), directory_name(b, slug_b)),
{
    let width = SEQUENCE_WIDTH as nat;
    assert(power_of_ten(width) == 100_000_000_000_000) by {
        reveal_with_fuel(power_of_ten, 15);
    }
    lemma_zero_padded_is_last_digits(a, width);
    lemma_zero_padded_is_last_digits(b, width);
    lemma_last_digits_order(a, b, width);
    let (digits_a, digits_b) = (last_digits(a, width), last_digits(b, width));
    let k = choose|k: int|
        {
            &&& 0 <= k < width
            &&& #[trigger] digits_a.take(k) == digits_b.take(k)
            &&& (digits_a[k] as u32) < (digits_b[k] as u32)
        };
    let (name_a, name_b) = (directory_name(a, slug_a), directory_name(b, slug_b));
    assert(name_a.take(k) =~= digits_a.take(k));
    assert(name_b.take(k) =~= digits_b.take(k));
    assert(name_a[k] == digits_a[k]);
    assert(name_b[k] == digits_b[k]);
}

/// The number in a directory name is fourteen digits wide for every number
/// that fits in fourteen digits.
pub proof fn lemma_directory_name_width(n: nat, slug: Seq<char>)
    requires
        n < 100_000_000_000_000,
    ensures
        directory_name(n, slug).len() == 15 + slug.len(),
        directory_name(n, slug)[14] == '_',
        directory_name(n, slug).skip(15) == slug,
{
    let width = SEQUENCE_WIDTH as nat;
    assert(power_of_ten(width) == 100_000_000_000_000) by {
        reveal_with_fuel(power_of_ten, 15);
    }
    lemma_zero_padded_is_last_digits(n, width);
    assert(directory_name(n, slug).skip(15) =~= slug);
}

/// A directory added to a listing raises the count by one; anything else
/// leaves it as it is. So numbers handed out one after the other rise by one,
/// as long as no directory is removed.
pub proof fn lemma_count_directories_push(
    entries: Seq<DirectoryEntryView>,
    entry: DirectoryEntryView,
)
    ensures
        count_directories(entries.push(entry)) == count_directories(entries) + if entry.is_directory {
            1nat
        } else {
            0nat
        },
{
    assert(entries.push(entry).drop_last() =~= entries);
}

/// `n` in decimal, with zeros in front of it where it has fewer than `width`
/// digits.
pub fn pad_number(n: usize, width: usize) -> (text: Vec<char>)
    ensures
        text@ == zero_padded(n as nat, width as nat),
{
    let mut digits: Vec<char> = Vec::new();
    let mut rest: usize = n;
    digits.push((0x30u8 + (rest % 10) as u8) as char);
    rest = rest / 10;
    while rest > 0
        invariant
            decimal(n as nat) == if rest > 0 {
                decimal(rest as nat) + digits@
            } else {
                digits@
            },
        decreases rest,
    {
        digits.insert(0, (0x30u8 + (rest % 10) as u8) as char);
        rest = rest / 10;
    }
    assert(digits@ =~= zeros(0) + decimal(n as nat));
    while digits.len() < width
        invariant
            digits@.len() >= decimal(n as nat).len(),
            digits@.len() == decimal(n as nat).len() || digits@.len() <= width,
            digits@ == zeros((digits@.len() - decimal(n as nat).len()) as nat) + decimal(n as nat),
        decreases width - digits.len(),
    {
        let ghost before = digits@;
        digits.insert(0, '0');
        assert(digits@ =~= zeros((digits@.len() - decimal(n as nat).len()) as nat) + decimal(
            n as nat,
        ));
    }
    digits
}

/// A migration: its place in the sequence, its slug, and what its `up` and
/// `down` files hold.
#[derive(Clone, Debug)]
pub struct MigrationDirectory {
    pub sequence_number: usize,
    pub slug: String,
    pub up_content: String,
    pub down_content: String,
}

/// A migration as character sequences.
pub struct MigrationView {
    pub sequence_number: nat,
    pub slug: Seq<char>,
    pub up_content: Seq<char>,
    pub down_content: Seq<char>,
}

impl View for MigrationDirectory {
    type V = MigrationView;

    open spec fn view(&self) -> MigrationView {
        MigrationView {
            sequence_number: self.sequence_number as nat,
            slug: self.slug@,
            up_content: self.up_content@,
            down_content: self.down_content@,
        }
    }
}

/// The next migration below a root that holds `existing` subdirectories: its
/// number is `existing`, its slug the snake case of `name`.
pub open spec fn allocated(
    existing: nat,
    name: Seq<char>,
    up_content: Seq<char>,
    down_content: Seq<char>,
) -> MigrationView {
    MigrationView {
        sequence_number: existing,
        slug: snake_case_of(name),
        up_content,
        down_content,
    }
}

impl MigrationDirectory {
    /// The name of the directory: the zero-padded number, an underscore, the
    /// slug.
    pub fn directory_name(&self) -> (name: String)
        ensures
            name@ == directory_name(self@.sequence_number, self@.slug),
    {
        let mut text = pad_number(self.sequence_number, SEQUENCE_WIDTH);
        text.push('_');
        let slug = chars_of(self.slug.as_str());
        push_range(&mut text, &slug, 0, slug.len());
        assert(text@ =~= directory_name(self.sequence_number as nat, self.slug@));
        string_of(&text)
    }

    /// The path of the directory below the migrations root `root`.
    pub fn path(&self, root: &str) -> (path: String)
        ensures
            path@ == joined(root@, directory_name(self@.sequence_number, self@.slug)),
    {
        let name = self.directory_name();
        join_path(root, name.as_str())
    }
}

/// How many of `entries` are directories.
pub fn count_subdirectories(entries: &Vec<DirectoryEntry>) -> (count: usize)
    ensures
        count == count_directories(listing(entries@)),
{
    let mut count: usize = 0;
    let mut i: usize = 0;
    while i < entries.len()
        invariant
            i <= entries.len(),
            count <= i,
            count == count_directories(listing(entries@).take(i as int)),
        decreases entries.len() - i,
    {
        assert(listing(entries@).take(i + 1).drop_last() =~= listing(entries@).take(i as int));
        if entries[i].is_directory {
            count += 1;
        }
        i += 1;
    }
    assert(listing(entries@).take(entries.len() as int) =~= listing(entries@));
    count
}

/// The next migration below a root that holds `existing` subdirectories: its
/// number is `existing`, its slug the snake case of `name`.
pub fn allocate_migration(existing: usize, name: &str, up_content: &str, down_content: &str) -> (
    migration: MigrationDirectory
)
    ensures
        migration@ == allocated(existing as nat, name@, up_content@, down_content@),
{
    MigrationDirectory {
        sequence_number: existing,
        slug: to_snake_case(name),
        up_content: up_content.to_owned(),
        down_content: down_content.to_owned(),
    }
}

} // verus!
