//! Rendering a report as a categorized terminal table: groups by category,
//! sorts categories and entries by reclaimable size descending, and formats
//! byte counts as short human-readable figures with one decimal, rounded
//! down.

use vstd::prelude::*;
use crate::detector::{BloatCategory, BloatEntry, BloatEntryView, entries_view, spec_category_str};
use crate::scan::ScanResult;

verus! {

pub open spec fn spec_digit_char(d: int) -> Seq<char> {
    if d == 0 {
        "0"@
    } else if d == 1 {
        "1"@
    } else if d == 2 {
        "2"@
    } else if d == 3 {
        "3"@
    } else if d == 4 {
        "4"@
    } else if d == 5 {
        "5"@
    } else if d == 6 {
        "6"@
    } else if d == 7 {
        "7"@
    } else if d == 8 {
        "8"@
    } else {
        "9"@
    }
}

fn digit_str(d: u64) -> (r: &'static str)
    requires
        d < 10,
    ensures
        r@ == spec_digit_char(d as int),
{
    match d {
        0 => "0",
        1 => "1",
        2 => "2",
        3 => "3",
        4 => "4",
        5 => "5",
        6 => "6",
        7 => "7",
        8 => "8",
        _ => "9",
    }
}

/// A number's decimal digits.
pub open spec fn spec_decimal(n: int) -> Seq<char>
    decreases n,
{
    if n < 10 {
        spec_digit_char(n)
    } else {
        spec_decimal(n / 10) + spec_digit_char(n % 10)
    }
}

pub fn decimal_string(n: u64) -> (r: String)
    ensures
        r@ == spec_decimal(n as int),
    decreases n,
{
    if n < 10 {
        String::from_str(digit_str(n))
    } else {
        decimal_string(n / 10).concat(digit_str(n % 10))
    }
}

/// The display form of a byte count: whole bytes below a binary kilobyte,
/// else one decimal digit (rounded down) of the matching binary unit.
pub open spec fn spec_format_bytes(bytes: u64) -> Seq<char> {
    let kb = 1024int;
    let mb = 1024int * 1024;
    let gb = 1024int * 1024 * 1024;
    if bytes as int >= gb {
        spec_scaled(bytes as int, gb) + " GB"@
    } else if bytes as int >= mb {
        spec_scaled(bytes as int, mb) + " MB"@
    } else if bytes as int >= kb {
        spec_scaled(bytes as int, kb) + " KB"@
    } else {
        spec_decimal(bytes as int) + " B"@
    }
}

/// A quantity over a unit, to one truncated decimal: "8.0", "248.1".
pub open spec fn spec_scaled(bytes: int, unit: int) -> Seq<char> {
    let tenths = bytes * 10 / unit;
    spec_decimal(tenths / 10) + "."@ + spec_digit_char(tenths % 10)
}

fn scaled_string(bytes: u64, unit: u64) -> (r: String)
    requires
        1024 <= unit,
    ensures
        r@ == spec_scaled(bytes as int, unit as int),
{
    proof {
        assert((bytes as int) * 10 <= (u64::MAX as int) * 10) by (nonlinear_arith)
            requires
                bytes as int <= u64::MAX as int,
        ;
    }
    let tenths_wide = (bytes as u128) * 10 / (unit as u128);
    proof {
        let x = (bytes as int) * 10;
        vstd::arithmetic::div_mod::lemma_div_is_ordered_by_denominator(x, 1024, unit as int);
        vstd::arithmetic::div_mod::lemma_div_is_ordered(x, (u64::MAX as int) * 10, 1024);
        assert(tenths_wide as int == x / (unit as int));
        assert(tenths_wide <= u64::MAX);
    }
    let tenths = tenths_wide as u64;
    decimal_string(tenths / 10).concat(".").concat(digit_str(tenths % 10))
}

pub const KB: u64 = 1024;

pub const MB: u64 = 1024 * 1024;

pub const GB: u64 = 1024 * 1024 * 1024;

/// Format a byte count for humans, one truncated decimal of the unit.
pub fn format_bytes(bytes: u64) -> (r: String)
    ensures
        r@ == spec_format_bytes(bytes),
{
    if bytes >= GB {
        scaled_string(bytes, GB).concat(" GB")
    } else if bytes >= MB {
        scaled_string(bytes, MB).concat(" MB")
    } else if bytes >= KB {
        scaled_string(bytes, KB).concat(" KB")
    } else {
        decimal_string(bytes).concat(" B")
    }
}

/// A name cut to a column width, with a trailing ellipsis when it was cut.
pub open spec fn spec_truncate(s: Seq<char>, max_len: int) -> Seq<char> {
    if s.len() <= max_len {
        s
    } else {
        s.take(max_len - 3) + "..."@
    }
}

pub fn truncate(s: &str, max_len: usize) -> (r: String)
    requires
        3 <= max_len,
    ensures
        r@ == spec_truncate(s@, max_len as int),
{
    let n = s.unicode_len();
    if n <= max_len {
        s.to_owned()
    } else {
        let head = s.substring_char(0, max_len - 3);
        assert(head@ =~= s@.take(max_len as int - 3));
        String::from_str(head).concat("...")
    }
}

// ---------------------------------------------------------------------------
// Padding.
// ---------------------------------------------------------------------------

pub open spec fn spec_spaces(n: int) -> Seq<char>
    decreases n,
{
    if n <= 0 {
        Seq::empty()
    } else {
        spec_spaces(n - 1) + " "@
    }
}

/// Left-justify into a column of at least `width` characters.
pub open spec fn spec_pad_right(s: Seq<char>, width: int) -> Seq<char> {
    s + spec_spaces(width - s.len())
}

/// Right-justify into a column of at least `width` characters.
pub open spec fn spec_pad_left(s: Seq<char>, width: int) -> Seq<char> {
    spec_spaces(width - s.len()) + s
}

fn spaces(n: usize) -> (r: String)
    ensures
        r@ == spec_spaces(n as int),
{
    let mut r = String::new();
    let mut i: usize = 0;
    while i < n
        invariant
            i <= n,
            r@ == spec_spaces(i as int),
        decreases n - i,
    {
        r.append(" ");
        i = i + 1;
    }
    r
}

fn pad_right(s: String, width: usize) -> (r: String)
    ensures
        r@ == spec_pad_right(s@, width as int),
{
    let n = s.as_str().unicode_len();
    let pad = if n >= width {
        0
    } else {
        width - n
    };
    let ghost sv = s@;
    let r = s.concat(spaces(pad).as_str());
    proof {
        if n >= width {
            assert(r@ =~= spec_pad_right(sv, width as int));
        }
    }
    r
}

fn pad_left(s: &str, width: usize) -> (r: String)
    ensures
        r@ == spec_pad_left(s@, width as int),
{
    let n = s.unicode_len();
    let pad = if n >= width {
        0
    } else {
        width - n
    };
    let r = spaces(pad).concat(s);
    proof {
        if n >= width {
            assert(r@ =~= spec_pad_left(s@, width as int));
        }
    }
    r
}

// ---------------------------------------------------------------------------
// Grouping and ordering.
// ---------------------------------------------------------------------------

/// A category's reclaimable subtotal over a report's entries, saturating.
pub open spec fn spec_cat_subtotal(entries: Seq<BloatEntryView>, cat: BloatCategory) -> u64
    decreases entries.len(),
{
    if entries.len() == 0 {
        0u64
    } else {
        let rest = spec_cat_subtotal(entries.drop_last(), cat);
        if entries.last().category == cat {
            if rest + entries.last().reclaimable_bytes > u64::MAX {
                u64::MAX
            } else {
                (rest + entries.last().reclaimable_bytes) as u64
            }
        } else {
            rest
        }
    }
}

pub open spec fn spec_cat_count(entries: Seq<BloatEntryView>, cat: BloatCategory) -> int
    decreases entries.len(),
{
    if entries.len() == 0 {
        0int
    } else {
        spec_cat_count(entries.drop_last(), cat) + if entries.last().category == cat {
            1int
        } else {
            0int
        }
    }
}

fn cat_subtotal(entries: &Vec<BloatEntry>, cat: BloatCategory) -> (r: (u64, usize))
    ensures
        r.0 == spec_cat_subtotal(entries_view(entries@), cat),
        r.1 == spec_cat_count(entries_view(entries@), cat),
{
    let ghost ev = entries_view(entries@);
    let mut total: u64 = 0;
    let mut count: usize = 0;
    let mut i: usize = 0;
    while i < entries.len()
        invariant
            i <= entries@.len(),
            ev == entries_view(entries@),
            total == spec_cat_subtotal(ev.take(i as int), cat),
            count <= i,
            count == spec_cat_count(ev.take(i as int), cat),
        decreases entries@.len() - i,
    {
        proof {
            assert(ev.take(i as int + 1).drop_last() =~= ev.take(i as int));
            assert(ev.take(i as int + 1).last() == ev[i as int]);
        }
        if entries[i].category == cat {
            total = total.saturating_add(entries[i].reclaimable_bytes);
            count = count + 1;
        }
        i = i + 1;
    }
    proof {
        assert(ev.take(entries@.len() as int) =~= ev);
    }
    (total, count)
}

/// The six categories, in declaration order.
pub open spec fn spec_all_categories() -> Seq<BloatCategory> {
    seq![
        BloatCategory::ProjectArtifacts,
        BloatCategory::ContainerData,
        BloatCategory::PackageCache,
        BloatCategory::IdeData,
        BloatCategory::SystemCache,
        BloatCategory::Other,
    ]
}

/// Insert a category into a list already sorted by subtotal descending,
/// after everything at least as large: a stable descending order.
pub open spec fn spec_insert_cat(
    entries: Seq<BloatEntryView>,
    c: BloatCategory,
    sorted: Seq<BloatCategory>,
) -> Seq<BloatCategory>
    decreases sorted.len(),
{
    if sorted.len() == 0 {
        seq![c]
    } else if spec_cat_subtotal(entries, sorted[0]) >= spec_cat_subtotal(entries, c) {
        seq![sorted[0]] + spec_insert_cat(entries, c, sorted.drop_first())
    } else {
        seq![c] + sorted
    }
}

/// The categories a table shows, largest reclaimable subtotal first: the
/// non-empty ones, insertion-sorted stably.
pub open spec fn spec_sorted_cats(entries: Seq<BloatEntryView>, upto: int) -> Seq<BloatCategory>
    decreases upto,
{
    if upto <= 0 {
        Seq::empty()
    } else {
        let prior = spec_sorted_cats(entries, upto - 1);
        let c = spec_all_categories()[upto - 1];
        if spec_cat_count(entries, c) > 0 {
            spec_insert_cat(entries, c, prior)
        } else {
            prior
        }
    }
}

fn insert_cat(
    entries: &Vec<BloatEntry>,
    c: BloatCategory,
    sorted: Vec<BloatCategory>,
) -> (r: Vec<BloatCategory>)
    ensures
        r@ == spec_insert_cat(entries_view(entries@), c, sorted@),
    decreases sorted@.len(),
{
    let ghost ev = entries_view(entries@);
    if sorted.len() == 0 {
        let mut r: Vec<BloatCategory> = Vec::new();
        r.push(c);
        assert(r@ =~= spec_insert_cat(ev, c, sorted@));
        r
    } else {
        let (head_total, _) = cat_subtotal(entries, sorted[0]);
        let (c_total, _) = cat_subtotal(entries, c);
        if head_total >= c_total {
            let head = sorted[0];
            let mut rest = sorted;
            let _ = rest.remove(0);
            assert(rest@ =~= old_take_rest(sorted@));
            let tail = insert_cat(entries, c, rest);
            let mut r: Vec<BloatCategory> = Vec::new();
            r.push(head);
            let mut tail = tail;
            r.append(&mut tail);
            proof {
                assert(r@ =~= seq![sorted@[0]] + spec_insert_cat(ev, c, sorted@.drop_first()));
            }
            r
        } else {
            let mut r: Vec<BloatCategory> = Vec::new();
            r.push(c);
            let mut rest = sorted;
            r.append(&mut rest);
            proof {
                assert(r@ =~= seq![c] + sorted@);
            }
            r
        }
    }
}

pub open spec fn old_take_rest(s: Seq<BloatCategory>) -> Seq<BloatCategory> {
    s.drop_first()
}

fn sorted_categories(entries: &Vec<BloatEntry>) -> (r: Vec<BloatCategory>)
    ensures
        r@ == spec_sorted_cats(entries_view(entries@), 6),
{
    let ghost ev = entries_view(entries@);
    let mut sorted: Vec<BloatCategory> = Vec::new();
    let mut i: usize = 0;
    assert(sorted@ =~= spec_sorted_cats(ev, 0));
    while i < 6
        invariant
            i <= 6,
            ev == entries_view(entries@),
            sorted@ == spec_sorted_cats(ev, i as int),
        decreases 6 - i,
    {
        let c = if i == 0 {
            BloatCategory::ProjectArtifacts
        } else if i == 1 {
            BloatCategory::ContainerData
        } else if i == 2 {
            BloatCategory::PackageCache
        } else if i == 3 {
            BloatCategory::IdeData
        } else if i == 4 {
            BloatCategory::SystemCache
        } else {
            BloatCategory::Other
        };
        assert(c == spec_all_categories()[i as int]);
        let (_, count) = cat_subtotal(entries, c);
        proof {
            lemma_cat_count_nonneg(ev, c);
        }
        if count > 0 {
            sorted = insert_cat(entries, c, sorted);
        }
        i = i + 1;
    }
    sorted
}

proof fn lemma_cat_count_nonneg(entries: Seq<BloatEntryView>, cat: BloatCategory)
    ensures
        spec_cat_count(entries, cat) >= 0,
    decreases entries.len(),
{
    if entries.len() > 0 {
        lemma_cat_count_nonneg(entries.drop_last(), cat);
    }
}

/// Insert an entry into a list already sorted by reclaimable size
/// descending, after everything at least as large: a stable order.
pub open spec fn spec_insert_entry(e: BloatEntryView, sorted: Seq<BloatEntryView>) -> Seq<
    BloatEntryView,
>
    decreases sorted.len(),
{
    if sorted.len() == 0 {
        seq![e]
    } else if sorted[0].reclaimable_bytes >= e.reclaimable_bytes {
        seq![sorted[0]] + spec_insert_entry(e, sorted.drop_first())
    } else {
        seq![e] + sorted
    }
}

/// A category's entries in report order, insertion-sorted by reclaimable
/// size descending.
pub open spec fn spec_sorted_entries(
    entries: Seq<BloatEntryView>,
    cat: BloatCategory,
    upto: int,
) -> Seq<BloatEntryView>
    decreases upto,
{
    if upto <= 0 {
        Seq::empty()
    } else {
        let prior = spec_sorted_entries(entries, cat, upto - 1);
        if entries[upto - 1].category == cat {
            spec_insert_entry(entries[upto - 1], prior)
        } else {
            prior
        }
    }
}

fn insert_entry(e: BloatEntry, sorted: Vec<BloatEntry>) -> (r: Vec<BloatEntry>)
    ensures
        entries_view(r@) == spec_insert_entry(e@, entries_view(sorted@)),
    decreases sorted@.len(),
{
    let ghost sv = entries_view(sorted@);
    if sorted.len() == 0 {
        let mut r: Vec<BloatEntry> = Vec::new();
        r.push(e);
        assert(entries_view(r@) =~= spec_insert_entry(e@, sv));
        r
    } else if sorted[0].reclaimable_bytes >= e.reclaimable_bytes {
        let mut rest = sorted;
        let head = rest.remove(0);
        assert(entries_view(rest@) =~= sv.drop_first());
        assert(head@ == sv[0]);
        let tail = insert_entry(e, rest);
        let mut r: Vec<BloatEntry> = Vec::new();
        r.push(head);
        let mut tail = tail;
        r.append(&mut tail);
        proof {
            assert(entries_view(r@) =~= seq![sv[0]] + spec_insert_entry(e@, sv.drop_first()));
        }
        r
    } else {
        let mut r: Vec<BloatEntry> = Vec::new();
        r.push(e);
        let mut rest = sorted;
        r.append(&mut rest);
        proof {
            assert(entries_view(r@) =~= seq![e@] + sv);
        }
        r
    }
}

fn sorted_entries(entries: &Vec<BloatEntry>, cat: BloatCategory) -> (r: Vec<BloatEntry>)
    ensures
        entries_view(r@) == spec_sorted_entries(
            entries_view(entries@),
            cat,
            entries@.len() as int,
        ),
{
    let ghost ev = entries_view(entries@);
    let mut sorted: Vec<BloatEntry> = Vec::new();
    let mut i: usize = 0;
    assert(entries_view(sorted@) =~= spec_sorted_entries(ev, cat, 0));
    while i < entries.len()
        invariant
            i <= entries@.len(),
            ev == entries_view(entries@),
            entries_view(sorted@) == spec_sorted_entries(ev, cat, i as int),
        decreases entries@.len() - i,
    {
        if entries[i].category == cat {
            sorted = insert_entry(entries[i].duplicate(), sorted);
        }
        i = i + 1;
    }
    sorted
}

// ---------------------------------------------------------------------------
// The table itself.
// ---------------------------------------------------------------------------

pub open spec fn table_rule() -> Seq<char> {
    "----------------------------------------"@
}

/// One entry's table row: two spaces, the name in a 30-column field, one
/// space, the size right-justified in 10.
pub open spec fn spec_entry_row(e: BloatEntryView) -> Seq<char> {
    "  "@ + spec_pad_right(spec_truncate(e.name, 30), 30) + " "@ + spec_pad_left(
        spec_format_bytes(e.reclaimable_bytes),
        10,
    ) + "\n"@
}

pub open spec fn spec_entry_rows(sorted: Seq<BloatEntryView>, upto: int) -> Seq<char>
    decreases upto,
{
    if upto <= 0 {
        Seq::empty()
    } else {
        spec_entry_rows(sorted, upto - 1) + spec_entry_row(sorted[upto - 1])
    }
}

/// One category's block: header, rule, sorted rows, subtotal.
pub open spec fn spec_cat_block(entries: Seq<BloatEntryView>, cat: BloatCategory) -> Seq<char> {
    let sorted = spec_sorted_entries(entries, cat, entries.len() as int);
    "\n"@ + spec_category_str(cat) + "\n"@ + table_rule() + "\n"@ + spec_entry_rows(
        sorted,
        sorted.len() as int,
    ) + "  "@ + spec_pad_right("subtotal"@, 30) + " "@ + spec_pad_left(
        spec_format_bytes(spec_cat_subtotal(entries, cat)),
        10,
    ) + "\n"@
}

pub open spec fn spec_cat_blocks(
    entries: Seq<BloatEntryView>,
    cats: Seq<BloatCategory>,
    upto: int,
) -> Seq<char>
    decreases upto,
{
    if upto <= 0 {
        Seq::empty()
    } else {
        spec_cat_blocks(entries, cats, upto - 1) + spec_cat_block(entries, cats[upto - 1])
    }
}

/// The saturating sum of the shown categories' subtotals.
pub open spec fn spec_grand_total(
    entries: Seq<BloatEntryView>,
    cats: Seq<BloatCategory>,
    upto: int,
) -> u64
    decreases upto,
{
    if upto <= 0 {
        0u64
    } else {
        let rest = spec_grand_total(entries, cats, upto - 1);
        let sub = spec_cat_subtotal(entries, cats[upto - 1]);
        if rest + sub > u64::MAX {
            u64::MAX
        } else {
            (rest + sub) as u64
        }
    }
}

/// What the table shows for a report: nothing found, or per-category blocks
/// sorted by reclaimable subtotal and a grand total line.
pub open spec fn spec_render(entries: Seq<BloatEntryView>) -> Seq<char> {
    if entries.len() == 0 {
        "No bloat detected.\n"@
    } else {
        let cats = spec_sorted_cats(entries, 6);
        spec_cat_blocks(entries, cats, cats.len() as int) + "\n"@ + spec_pad_left(
            "TOTAL: "@ + spec_format_bytes(spec_grand_total(entries, cats, cats.len() as int)),
            42,
        ) + "\n"@
    }
}

/// Render a report as a categorized table, grouped by category and sorted
/// by reclaimable size descending, with per-category subtotals and a grand
/// total.
#[verifier::rlimit(60)]
pub fn render(result: &ScanResult) -> (r: String)
    ensures
        r@ == spec_render(entries_view(result.entries@)),
{
    let ghost ev = entries_view(result.entries@);
    if result.entries.len() == 0 {
        return String::from_str("No bloat detected.\n");
    }
    let cats = sorted_categories(&result.entries);
    let mut output = String::new();
    let mut grand_total: u64 = 0;

    let mut ci: usize = 0;
    proof {
        assert(output@ =~= spec_cat_blocks(ev, cats@, 0));
    }
    while ci < cats.len()
        invariant
            ci <= cats@.len(),
            ev == entries_view(result.entries@),
            cats@ == spec_sorted_cats(ev, 6),
            output@ == spec_cat_blocks(ev, cats@, ci as int),
            grand_total == spec_grand_total(ev, cats@, ci as int),
        decreases cats@.len() - ci,
    {
        let cat = cats[ci];
        let (subtotal, _) = cat_subtotal(&result.entries, cat);
        grand_total = grand_total.saturating_add(subtotal);

        output.append("\n");
        output.append(cat.as_str());
        output.append("\n");
        output.append("----------------------------------------");
        output.append("\n");

        let sorted = sorted_entries(&result.entries, cat);
        let ghost sortedv = entries_view(sorted@);
        let mut ei: usize = 0;
        let ghost base = output@;
        proof {
            assert(base + spec_entry_rows(sortedv, 0) =~= base);
        }
        while ei < sorted.len()
            invariant
                ei <= sorted@.len(),
                sortedv == entries_view(sorted@),
                output@ == base + spec_entry_rows(sortedv, ei as int),
            decreases sorted@.len() - ei,
        {
            let e = &sorted[ei];
            output.append("  ");
            output.append(pad_right(truncate(e.name.as_str(), 30), 30).as_str());
            output.append(" ");
            output.append(pad_left(format_bytes(e.reclaimable_bytes).as_str(), 10).as_str());
            output.append("\n");
            proof {
                assert(output@ =~= base + spec_entry_rows(sortedv, ei as int + 1));
            }
            ei = ei + 1;
        }

        output.append("  ");
        output.append(pad_right(String::from_str("subtotal"), 30).as_str());
        output.append(" ");
        output.append(pad_left(format_bytes(subtotal).as_str(), 10).as_str());
        output.append("\n");
        proof {
            assert(output@ =~= spec_cat_blocks(ev, cats@, ci as int + 1));
        }
        ci = ci + 1;
    }

    output.append("\n");
    let total_line = String::from_str("TOTAL: ").concat(format_bytes(grand_total).as_str());
    output.append(pad_left(total_line.as_str(), 42).as_str());
    output.append("\n");
    output
}

} // verus!
