//! Container-engine storage accounting: parsing the sizes the engine prints
//! ("8.056GB", "248.1MB (3%)", "0B"), mapping its usage classes to cleanup
//! hints, and recognizing the engine's VM disk image on hosts that use one.
//! Talking to the engine itself is a subprocess and stays outside the
//! library.

use vstd::prelude::*;
use crate::detector::{BloatCategory, BloatEntry, BloatEntryView, Location};
use crate::platform::Platform;
use crate::strutil::{str_eq, spec_find_char, find_char, spec_trim, trim};

verus! {

// ---------------------------------------------------------------------------
// Digits.
// ---------------------------------------------------------------------------

pub open spec fn spec_is_digit(c: char) -> bool {
    48 <= c as int <= 57
}

pub open spec fn spec_digit_val(c: char) -> int {
    c as int - 48
}

/// The value of a string of decimal digits.
pub open spec fn spec_digits_value(s: Seq<char>) -> int
    decreases s.len(),
{
    if s.len() == 0 {
        0
    } else {
        spec_digits_value(s.drop_last()) * 10 + spec_digit_val(s.last())
    }
}

pub proof fn lemma_digits_value_nonneg(s: Seq<char>)
    requires
        forall|i: int| 0 <= i < s.len() ==> spec_is_digit(#[trigger] s[i]),
    ensures
        spec_digits_value(s) >= 0,
    decreases s.len(),
{
    if s.len() > 0 {
        lemma_digits_value_nonneg(s.drop_last());
    }
}

pub open spec fn spec_pow10(k: int) -> int
    decreases k,
{
    if k <= 0 {
        1
    } else {
        10 * spec_pow10(k - 1)
    }
}

// ---------------------------------------------------------------------------
// The numeric part: digits with at most one decimal point.
// ---------------------------------------------------------------------------

pub open spec fn spec_is_num_char(c: char) -> bool {
    spec_is_digit(c) || c == '.'
}

fn is_num_char(c: char) -> (r: bool)
    ensures
        r == spec_is_num_char(c),
{
    let u = c as u32;
    (48 <= u && u <= 57) || c == '.'
}

/// The length of the leading run of digits and dots.
pub open spec fn spec_num_run(s: Seq<char>, from: int) -> int
    decreases s.len() - from,
{
    if from < 0 || from >= s.len() {
        s.len() as int
    } else if spec_is_num_char(s[from]) {
        spec_num_run(s, from + 1)
    } else {
        from
    }
}

pub proof fn lemma_num_run_props(s: Seq<char>, from: int)
    requires
        0 <= from <= s.len(),
    ensures
        from <= spec_num_run(s, from) <= s.len(),
        forall|j: int| from <= j < spec_num_run(s, from) ==> spec_is_num_char(#[trigger] s[j]),
        spec_num_run(s, from) < s.len() ==> !spec_is_num_char(s[spec_num_run(s, from)]),
    decreases s.len() - from,
{
    if from < s.len() && spec_is_num_char(s[from]) {
        lemma_num_run_props(s, from + 1);
    }
}

/// How many fractional digits take part exactly; anything beyond is
/// truncated away.
pub const FRAC_DIGITS: usize = 12;

/// A numeric token split at its decimal point: the integer value, the value
/// of the first twelve fractional digits, and how many of them there are.
/// `None` when the token is not a number (no digits, or a second dot).
pub open spec fn spec_decompose_number(num: Seq<char>) -> Option<(int, int, int)> {
    let dot = spec_find_char(num, 0, '.');
    if dot == num.len() {
        if num.len() == 0 {
            None
        } else {
            Some((spec_digits_value(num), 0, 0))
        }
    } else {
        let intpart = num.subrange(0, dot);
        let rest = num.skip(dot + 1);
        if spec_find_char(rest, 0, '.') < rest.len() {
            None
        } else if intpart.len() == 0 && rest.len() == 0 {
            None
        } else {
            let k = if rest.len() <= FRAC_DIGITS as int {
                rest.len() as int
            } else {
                FRAC_DIGITS as int
            };
            Some((spec_digits_value(intpart), spec_digits_value(rest.take(k)), k))
        }
    }
}

// ---------------------------------------------------------------------------
// Units.
// ---------------------------------------------------------------------------

pub open spec fn spec_unit_multiplier(unit: Seq<char>) -> Option<u64> {
    if unit == "B"@ {
        Some(1u64)
    } else if unit == "kB"@ || unit == "KB"@ {
        Some(1000u64)
    } else if unit == "MB"@ {
        Some(1000000u64)
    } else if unit == "GB"@ {
        Some(1000000000u64)
    } else if unit == "TB"@ {
        Some(1000000000000u64)
    } else if unit == "KiB"@ {
        Some(1024u64)
    } else if unit == "MiB"@ {
        Some(1048576u64)
    } else if unit == "GiB"@ {
        Some(1073741824u64)
    } else if unit == "TiB"@ {
        Some(1099511627776u64)
    } else {
        None
    }
}

fn unit_multiplier(unit: &str) -> (r: Option<u64>)
    ensures
        r == spec_unit_multiplier(unit@),
{
    if str_eq(unit, "B") {
        Some(1)
    } else if str_eq(unit, "kB") || str_eq(unit, "KB") {
        Some(1000)
    } else if str_eq(unit, "MB") {
        Some(1000000)
    } else if str_eq(unit, "GB") {
        Some(1000000000)
    } else if str_eq(unit, "TB") {
        Some(1000000000000)
    } else if str_eq(unit, "KiB") {
        Some(1024)
    } else if str_eq(unit, "MiB") {
        Some(1048576)
    } else if str_eq(unit, "GiB") {
        Some(1073741824)
    } else if str_eq(unit, "TiB") {
        Some(1099511627776)
    } else {
        None
    }
}

// ---------------------------------------------------------------------------
// The parser.
// ---------------------------------------------------------------------------

/// What a size string denotes: the value before any parenthesis, trimmed;
/// `0B` and the empty string are zero; otherwise a number, a unit, and the
/// floor of their product, clamped at `u64::MAX`.
pub open spec fn spec_parse_docker_size(s: Seq<char>) -> Result<u64, Seq<char>> {
    let size_part = spec_trim(s.subrange(0, spec_find_char(s, 0, '(')));
    if size_part == "0B"@ || size_part.len() == 0 {
        Ok(0u64)
    } else {
        let ne = spec_num_run(size_part, 0);
        if ne == 0 {
            Err("docker: invalid size format: "@ + s)
        } else {
            let num_str = size_part.subrange(0, ne);
            let unit = spec_trim(size_part.skip(ne));
            match spec_decompose_number(num_str) {
                None => Err("docker: invalid number in size: "@ + s),
                Some((iv, fv, k)) => match spec_unit_multiplier(unit) {
                    None => Err("docker: unknown size unit: "@ + unit),
                    Some(mult) => {
                        let exact = iv * mult + (fv * mult) / spec_pow10(k);
                        Ok(
                            if exact > u64::MAX {
                                u64::MAX
                            } else {
                                exact as u64
                            },
                        )
                    },
                },
            }
        }
    }
}

/// Parse the leading digits of `s` from `from` to `to`; the flag says the
/// value exceeds `u64::MAX`, in which case the returned number is
/// meaningless.
#[verifier::loop_isolation(false)]
fn parse_digits(s: &str, from: usize, to: usize) -> (r: (u64, bool))
    requires
        from <= to <= s@.len(),
        forall|j: int| from <= j < to ==> spec_is_digit(#[trigger] s@[j]),
    ensures
        ({
            let v = spec_digits_value(s@.subrange(from as int, to as int));
            &&& r.1 == (v > u64::MAX)
            &&& !r.1 ==> r.0 == v
        }),
{
    let ghost digits = s@.subrange(from as int, to as int);
    let mut acc: u128 = 0;
    let mut over = false;
    let mut i = from;
    proof {
        assert(digits.take(0) =~= Seq::<char>::empty());
    }
    while i < to
        invariant
            from <= i <= to,
            over == (spec_digits_value(digits.take(i - from)) > u64::MAX),
            !over ==> acc == spec_digits_value(digits.take(i - from)) && acc <= u64::MAX,
        decreases to - i,
    {
        let c = s.get_char(i);
        assert(c == digits[i - from]);
        let d = (c as u32) - 48;
        proof {
            assert(digits.take(i - from + 1).drop_last() =~= digits.take(i - from));
            assert(digits.take(i - from + 1).last() == digits[i - from]);
        }
        if !over {
            acc = acc * 10 + (d as u128);
            if acc > u64::MAX as u128 {
                over = true;
            }
        } else {
            proof {
                lemma_digits_value_nonneg(digits.take(i - from));
            }
        }
        i = i + 1;
    }
    proof {
        assert(digits.take(to - from) =~= digits);
    }
    if over {
        (0, true)
    } else {
        (acc as u64, false)
    }
}

/// Parse an engine-reported size ("8.056GB", "248.1MB (3%)", "0B") into
/// bytes, saturating at `u64::MAX`; fractional digits beyond the twelfth
/// are ignored.
#[verifier::loop_isolation(false)]
pub fn parse_docker_size(size_str: &str) -> (r: Result<u64, String>)
    ensures
        spec_parse_docker_size(size_str@) == match r {
            Ok(v) => Ok::<u64, Seq<char>>(v),
            Err(e) => Err(e@),
        },
{
    let n = size_str.unicode_len();
    let paren = find_char(size_str, 0, '(');
    let before = size_str.substring_char(0, paren);
    let size_part = trim(before);
    let m = size_part.unicode_len();

    if str_eq(size_part, "0B") || m == 0 {
        return Ok(0);
    }

    // the leading run of digits and dots
    let mut ne: usize = 0;
    while ne < m && is_num_char(size_part.get_char(ne))
        invariant
            0 <= ne <= m,
            spec_num_run(size_part@, 0) == spec_num_run(size_part@, ne as int),
        decreases m - ne,
    {
        ne = ne + 1;
    }
    assert(ne as int == spec_num_run(size_part@, 0));

    if ne == 0 {
        return Err(
            String::from_str("docker: invalid size format: ").concat(size_str),
        );
    }
    proof {
        lemma_num_run_props(size_part@, 0);
    }

    let unit_raw = size_part.substring_char(ne, m);
    let unit = trim(unit_raw);
    assert(unit@ == spec_trim(size_part@.skip(ne as int)));

    // split the numeric token at its decimal point
    let dot = find_char(size_part, 0, '.');
    let dot = if dot > ne {
        ne
    } else {
        dot
    };
    proof {
        crate::strutil::lemma_find_char_props(size_part@, 0, '.');
        let ghost num = size_part@.subrange(0, ne as int);
        assert(spec_find_char(num, 0, '.') == if spec_find_char(size_part@, 0, '.') > ne {
            ne as int
        } else {
            spec_find_char(size_part@, 0, '.')
        }) by {
            lemma_find_char_subrange(size_part@, ne as int, '.');
        }
    }

    let ghost num = size_part@.subrange(0, ne as int);

    if dot == ne {
        // no decimal point: plain digits
        assert(forall|j: int| 0 <= j < ne ==> spec_is_digit(#[trigger] size_part@[j]));
        assert(forall|j: int| 0 <= j < ne ==> num[j] == size_part@[j]);
        let (iv, over) = parse_digits(size_part, 0, ne);
        assert(size_part@.subrange(0, ne as int) == num);
        match unit_multiplier(unit) {
            None => Err(
                String::from_str("docker: unknown size unit: ").concat(unit),
            ),
            Some(mult) => {
                proof {
                    lemma_digits_value_nonneg(num);
                }
                if over {
                    proof {
                        let exact = spec_digits_value(num) * mult + (0 * mult) / spec_pow10(0);
                        assert(spec_digits_value(num) * mult >= spec_digits_value(num)) by (
                        nonlinear_arith)
                            requires
                                spec_digits_value(num) >= 0,
                                mult >= 1,
                        ;
                    }
                    Ok(u64::MAX)
                } else {
                    proof {
                        assert((iv as u128) * (mult as u128) == iv * mult
                            && (iv as u128) * (mult as u128) <= u64::MAX as u128 * u64::MAX as u128)
                            by (nonlinear_arith)
                            requires
                                iv as u128 <= u64::MAX as u128,
                                mult as u128 <= u64::MAX as u128,
                        ;
                    }
                    let total = (iv as u128) * (mult as u128);
                    if total > u64::MAX as u128 {
                        Ok(u64::MAX)
                    } else {
                        Ok(total as u64)
                    }
                }
            },
        }
    } else {
        // a decimal point at `dot`
        let rest_len = ne - dot - 1;
        let ghost rest = num.skip(dot as int + 1);
        assert(rest =~= size_part@.subrange(dot as int + 1, ne as int));
        // a second dot makes the token invalid
        let second = find_char(size_part, dot + 1, '.');
        proof {
            lemma_find_char_subrange2(size_part@, dot as int + 1, ne as int, '.');
        }
        if second < ne {
            return Err(
                String::from_str("docker: invalid number in size: ").concat(size_str),
            );
        }
        proof {
            crate::strutil::lemma_find_char_props(size_part@, dot as int + 1, '.');
        }
        if dot == 0 && rest_len == 0 {
            // just "."
            assert(num.subrange(0, dot as int).len() == 0);
            return Err(
                String::from_str("docker: invalid number in size: ").concat(size_str),
            );
        }
        assert(forall|j: int| 0 <= j < dot ==> spec_is_digit(#[trigger] size_part@[j]));
        let (iv, over) = parse_digits(size_part, 0, dot);
        assert(size_part@.subrange(0, dot as int) =~= num.subrange(0, dot as int));
        let k = if rest_len <= FRAC_DIGITS {
            rest_len
        } else {
            FRAC_DIGITS
        };
        assert(forall|j: int| dot + 1 <= j < dot + 1 + k ==> spec_is_digit(
            #[trigger] size_part@[j],
        ));
        let (fv, fover) = parse_digits(size_part, dot + 1, dot + 1 + k);
        proof {
            assert(size_part@.subrange(dot as int + 1, dot as int + 1 + k as int) =~= rest.take(
                k as int,
            ));
            lemma_digits_value_bounded(rest.take(k as int));
        }
        assert(!fover);
        match unit_multiplier(unit) {
            None => Err(
                String::from_str("docker: unknown size unit: ").concat(unit),
            ),
            Some(mult) => {
                let ghost intpart = num.subrange(0, dot as int);
                proof {
                    lemma_digits_value_nonneg(intpart);
                    lemma_digits_value_nonneg(rest.take(k as int));
                }
                let p10 = pow10_exec(k);
                let fcontrib = ((fv as u128) * (mult as u128)) / (p10 as u128);
                proof {
                    assert((fv as u128) * (mult as u128) == fv * mult) by (nonlinear_arith)
                        requires
                            fv <= u64::MAX,
                            mult <= u64::MAX,
                    ;
                }
                if over {
                    proof {
                        let exact = spec_digits_value(intpart) * mult + (fv * mult) / spec_pow10(
                            k as int,
                        );
                        assert(spec_digits_value(intpart) * mult >= spec_digits_value(intpart))
                            by (nonlinear_arith)
                            requires
                                spec_digits_value(intpart) >= 0,
                                mult >= 1,
                        ;
                        lemma_div_nonneg(fv as int * mult as int, spec_pow10(k as int));
                        lemma_pow10_pos(k as int);
                    }
                    Ok(u64::MAX)
                } else {
                    proof {
                        assert((iv as u128) * (mult as u128) == iv * mult
                            && (iv as u128) * (mult as u128) <= u64::MAX as u128 * u64::MAX as u128)
                            by (nonlinear_arith)
                            requires
                                iv as u128 <= u64::MAX as u128,
                                mult as u128 <= u64::MAX as u128,
                        ;
                        lemma_div_nonneg(fv as int * mult as int, spec_pow10(k as int));
                        lemma_pow10_pos(k as int);
                    }
                    let total = (iv as u128) * (mult as u128);
                    proof {
                        assert(mult <= 1099511627776u64);
                        assert((iv as u128) * (mult as u128) <= (u64::MAX as u128)
                            * 1099511627776u128) by (nonlinear_arith)
                            requires
                                iv as u128 <= u64::MAX as u128,
                                mult as u128 <= 1099511627776u128,
                        ;
                        assert((fv as u128) * (mult as u128) <= (u64::MAX as u128)
                            * 1099511627776u128) by (nonlinear_arith)
                            requires
                                fv as u128 <= u64::MAX as u128,
                                mult as u128 <= 1099511627776u128,
                        ;
                        vstd::arithmetic::div_mod::lemma_div_nonincreasing(
                            ((fv as u128) * (mult as u128)) as int,
                            p10 as int,
                        );
                    }
                    let total = total + fcontrib;
                    if total > u64::MAX as u128 {
                        Ok(u64::MAX)
                    } else {
                        Ok(total as u64)
                    }
                }
            },
        }
    }
}

fn pow10_exec(k: usize) -> (r: u64)
    requires
        k <= 12,
    ensures
        r == spec_pow10(k as int),
        r >= 1,
{
    let mut r: u64 = 1;
    let mut i: usize = 0;
    while i < k
        invariant
            i <= k <= 12,
            r == spec_pow10(i as int),
            r <= 1000000000000,
        decreases k - i,
    {
        proof {
            lemma_pow10_bound(i as int);
        }
        r = r * 10;
        i = i + 1;
    }
    proof {
        lemma_pow10_pos(k as int);
    }
    r
}

proof fn lemma_pow10_pos(k: int)
    ensures
        spec_pow10(k) >= 1,
    decreases (if k > 0 {
        k
    } else {
        0
    }),
{
    if k > 0 {
        lemma_pow10_pos(k - 1);
    }
}

proof fn lemma_pow10_mono(a: int, b: int)
    requires
        0 <= a <= b,
    ensures
        spec_pow10(a) <= spec_pow10(b),
    decreases b - a,
{
    if a < b {
        lemma_pow10_mono(a, b - 1);
        lemma_pow10_pos(b - 1);
    }
}

proof fn lemma_pow10_bound(k: int)
    requires
        0 <= k <= 11,
    ensures
        spec_pow10(k) <= 100000000000,
{
    lemma_pow10_mono(k, 11);
    assert(spec_pow10(11) == 100000000000) by {
        reveal_with_fuel(spec_pow10, 12);
    }
}

proof fn lemma_div_nonneg(a: int, b: int)
    requires
        a >= 0,
        b >= 1,
    ensures
        a / b >= 0,
{
}

/// Twelve digits stay under `u64::MAX`.
proof fn lemma_digits_value_bounded(s: Seq<char>)
    requires
        s.len() <= 12,
        forall|i: int| 0 <= i < s.len() ==> spec_is_digit(#[trigger] s[i]),
    ensures
        spec_digits_value(s) < 1000000000000,
    decreases s.len(),
{
    lemma_digits_value_bounded_helper(s, s.len() as int);
    assert(s.take(s.len() as int) =~= s);
    lemma_pow10_mono(s.len() as int, 12);
    assert(spec_pow10(12) == 1000000000000) by {
        reveal_with_fuel(spec_pow10, 13);
    }
}

proof fn lemma_digits_value_bounded_helper(s: Seq<char>, k: int)
    requires
        0 <= k <= s.len() <= 12,
        forall|i: int| 0 <= i < s.len() ==> spec_is_digit(#[trigger] s[i]),
    ensures
        spec_digits_value(s.take(k)) < spec_pow10(k),
    decreases k,
{
    if k > 0 {
        lemma_digits_value_bounded_helper(s, k - 1);
        assert(s.take(k).drop_last() =~= s.take(k - 1));
        assert(s.take(k).last() == s[k - 1]);
        assert(spec_digits_value(s.take(k - 1)) * 10 + 9 < spec_pow10(k - 1) * 10) by (
        nonlinear_arith)
            requires
                spec_digits_value(s.take(k - 1)) < spec_pow10(k - 1),
        ;
    } else {
        assert(s.take(0) =~= Seq::<char>::empty());
    }
}

/// Finding a character inside a prefix agrees with finding it in the whole,
/// capped at the prefix's end.
proof fn lemma_find_char_subrange(s: Seq<char>, ne: int, c: char)
    requires
        0 <= ne <= s.len(),
    ensures
        spec_find_char(s.subrange(0, ne), 0, c) == if spec_find_char(s, 0, c) > ne {
            ne
        } else {
            spec_find_char(s, 0, c)
        },
{
    crate::strutil::lemma_find_char_props(s, 0, c);
    let sub = s.subrange(0, ne);
    crate::strutil::lemma_find_char_props(sub, 0, c);
    let f = spec_find_char(s, 0, c);
    let g = spec_find_char(sub, 0, c);
    if f > ne {
        if g < ne {
            assert(sub[g] == s[g]);
        }
    } else {
        if g < f {
            assert(s[g] == sub[g]);
        }
        if f < g && f < ne {
            assert(sub[f] == s[f]);
        }
    }
}

/// Finding a character in a middle slice agrees with finding it in the
/// whole, within the slice's bounds.
proof fn lemma_find_char_subrange2(s: Seq<char>, a: int, b: int, c: char)
    requires
        0 <= a <= b <= s.len(),
    ensures
        spec_find_char(s.subrange(a, b), 0, c) == if spec_find_char(s, a, c) > b {
            b - a
        } else {
            spec_find_char(s, a, c) - a
        },
{
    lemma_find_char_from(s, a, c);
    let sub = s.subrange(a, b);
    crate::strutil::lemma_find_char_props(sub, 0, c);
    let f = spec_find_char(s, a, c);
    let g = spec_find_char(sub, 0, c);
    if f > b {
        if g < b - a {
            assert(sub[g] == s[a + g]);
        }
    } else {
        if g < f - a {
            assert(s[a + g] == sub[g]);
        }
        if f - a < g && f < b {
            assert(sub[f - a] == s[f]);
        }
    }
}

proof fn lemma_find_char_from(s: Seq<char>, from: int, c: char)
    requires
        0 <= from <= s.len(),
    ensures
        from <= spec_find_char(s, from, c) <= s.len(),
        spec_find_char(s, from, c) < s.len() ==> s[spec_find_char(s, from, c)] == c,
        forall|j: int| from <= j < spec_find_char(s, from, c) ==> s[j] != c,
{
    crate::strutil::lemma_find_char_props(s, from, c);
}

// ---------------------------------------------------------------------------
// Cleanup hints and the VM disk image.
// ---------------------------------------------------------------------------

pub open spec fn spec_cleanup_hint(kind: Seq<char>) -> Seq<char> {
    if kind == "Images"@ {
        "docker image prune -a"@
    } else if kind == "Containers"@ {
        "docker container prune"@
    } else if kind == "Local Volumes"@ {
        "docker volume prune"@
    } else if kind == "Build Cache"@ {
        "docker builder prune"@
    } else {
        "docker system prune"@
    }
}

pub fn get_cleanup_hint(kind: &str) -> (r: String)
    ensures
        r@ == spec_cleanup_hint(kind@),
{
    if str_eq(kind, "Images") {
        String::from_str("docker image prune -a")
    } else if str_eq(kind, "Containers") {
        String::from_str("docker container prune")
    } else if str_eq(kind, "Local Volumes") {
        String::from_str("docker volume prune")
    } else if str_eq(kind, "Build Cache") {
        String::from_str("docker builder prune")
    } else {
        String::from_str("docker system prune")
    }
}

/// Where the engine's VM disk image lives, per platform, and how to shrink
/// it; hosts that run the engine natively have none.
pub open spec fn spec_vm_candidate(platform: Platform, home: Seq<char>) -> Option<
    (Seq<char>, Seq<char>),
> {
    match platform {
        Platform::MacOS => Some(
            (
                home + "/Library/Containers/com.docker.docker/Data/vms/0/data/Docker.raw"@,
                "Docker Desktop VM disk (doesn't auto-compact). Shrink it via Docker Desktop settings: Resources, Disk image size, then 'Clean/Purge data', and restart Docker Desktop."@,
            ),
        ),
        Platform::Windows => Some(
            (
                home + "/AppData/Local/Docker/wsl/data/ext4.vhdx"@,
                "Docker Desktop VM disk (doesn't auto-compact). Shrink it: run 'wsl --shutdown' then 'Optimize-VHD -Path <path> -Mode Full' in PowerShell (admin)."@,
            ),
        ),
        _ => None,
    }
}

pub fn docker_vm_candidate(platform: Platform, home: &str) -> (r: Option<(String, String)>)
    ensures
        match r {
            Some((p, h)) => spec_vm_candidate(platform, home@) == Some((p@, h@)),
            None => spec_vm_candidate(platform, home@) is None,
        },
{
    match platform {
        Platform::MacOS => Some(
            (
                String::from_str(home).concat(
                    "/Library/Containers/com.docker.docker/Data/vms/0/data/Docker.raw",
                ),
                String::from_str(
                    "Docker Desktop VM disk (doesn't auto-compact). Shrink it via Docker Desktop settings: Resources, Disk image size, then 'Clean/Purge data', and restart Docker Desktop.",
                ),
            ),
        ),
        Platform::Windows => Some(
            (
                String::from_str(home).concat("/AppData/Local/Docker/wsl/data/ext4.vhdx"),
                String::from_str(
                    "Docker Desktop VM disk (doesn't auto-compact). Shrink it: run 'wsl --shutdown' then 'Optimize-VHD -Path <path> -Mode Full' in PowerShell (admin).",
                ),
            ),
        ),
        _ => None,
    }
}

/// The finding for a VM disk image of the given size: reported for
/// visibility, nothing of it reclaimable without engine-side action.
pub fn docker_vm_entry(path: String, hint: String, size_bytes: u64) -> (r: Option<BloatEntry>)
    ensures
        match r {
            Some(e) => {
                &&& size_bytes > 0
                &&& e@.category == BloatCategory::ContainerData
                &&& e@.name == "Docker Desktop VM disk"@
                &&& e@.location.kind is FilesystemPath
                &&& e@.location.text == path@
                &&& e@.size_bytes == size_bytes
                &&& e@.reclaimable_bytes == 0
                &&& e@.last_modified is None
                &&& e@.cleanup_hint == Some(hint@)
            },
            None => size_bytes == 0,
        },
{
    if size_bytes == 0 {
        return None;
    }
    Some(
        BloatEntry {
            category: BloatCategory::ContainerData,
            name: String::from_str("Docker Desktop VM disk"),
            location: Location::FilesystemPath(path),
            size_bytes,
            reclaimable_bytes: 0,
            last_modified: None,
            cleanup_hint: Some(hint),
        },
    )
}

// ---------------------------------------------------------------------------
// The engine's usage report, one JSON object per line.
// ---------------------------------------------------------------------------

/// The display name of one usage class.
pub open spec fn spec_df_name(ty: Seq<char>) -> Seq<char> {
    if ty == "Images"@ {
        "docker images"@
    } else if ty == "Containers"@ {
        "docker containers"@
    } else if ty == "Local Volumes"@ {
        "docker volumes"@
    } else if ty == "Build Cache"@ {
        "docker build cache"@
    } else {
        ty
    }
}

fn df_name(ty: &str) -> (r: String)
    ensures
        r@ == spec_df_name(ty@),
{
    if str_eq(ty, "Images") {
        String::from_str("docker images")
    } else if str_eq(ty, "Containers") {
        String::from_str("docker containers")
    } else if str_eq(ty, "Local Volumes") {
        String::from_str("docker volumes")
    } else if str_eq(ty, "Build Cache") {
        String::from_str("docker build cache")
    } else {
        String::from_str(ty)
    }
}

/// The finding one parsed report line yields; what the engine counts
/// reclaimable is clamped to the class's size, keeping every finding's
/// invariant.
pub open spec fn spec_df_entry(ty: Seq<char>, size: u64, reclaimable: u64) -> BloatEntryView {
    BloatEntryView {
        category: BloatCategory::ContainerData,
        name: spec_df_name(ty),
        location: crate::detector::LocationView {
            kind: crate::detector::LocationKind::Aggregate,
            text: ty,
        },
        size_bytes: size,
        reclaimable_bytes: if reclaimable <= size {
            reclaimable
        } else {
            size
        },
        last_modified: None,
        cleanup_hint: Some(spec_cleanup_hint(ty)),
    }
}

pub open spec fn df_parse_failure_diag() -> Seq<char> {
    "docker: failed to parse output"@
}

/// The whole report scan, line by line: blank lines are skipped; a line
/// that is not a usage record is skipped (or, verbose, ends the scan with an
/// error); a malformed size ends the scan with its error; zero-sized classes
/// yield nothing.
pub open spec fn spec_df_scan(
    s: Seq<char>,
    pos: int,
    acc: Seq<BloatEntryView>,
    verbose: bool,
) -> Result<Seq<BloatEntryView>, Seq<char>>
    decreases s.len() - pos
    via spec_df_scan_decreases
{
    if pos < 0 || pos >= s.len() {
        Ok(acc)
    } else {
        let nl = spec_find_char(s, pos, '\n');
        let line = crate::manifest::spec_line_at(s, pos, nl);
        let next = nl + 1;
        if spec_trim(line).len() == 0 {
            if next <= s.len() {
                spec_df_scan(s, next, acc, verbose)
            } else {
                Ok(acc)
            }
        } else {
            let ty = crate::manifest::json_str_field(line, "Type"@);
            let sz = crate::manifest::json_str_field(line, "Size"@);
            let rc = crate::manifest::json_str_field(line, "Reclaimable"@);
            if ty is None || sz is None || rc is None {
                if verbose {
                    Err(df_parse_failure_diag())
                } else {
                    if next <= s.len() {
                        spec_df_scan(s, next, acc, verbose)
                    } else {
                        Ok(acc)
                    }
                }
            } else {
                match spec_parse_docker_size(sz->Some_0) {
                    Err(e) => Err(e),
                    Ok(size) => match spec_parse_docker_size(rc->Some_0) {
                        Err(e) => Err(e),
                        Ok(reclaimable) => {
                            let acc2 = if size == 0 {
                                acc
                            } else {
                                acc.push(spec_df_entry(ty->Some_0, size, reclaimable))
                            };
                            if next <= s.len() {
                                spec_df_scan(s, next, acc2, verbose)
                            } else {
                                Ok(acc2)
                            }
                        },
                    },
                }
            }
        }
    }
}

#[via_fn]
proof fn spec_df_scan_decreases(s: Seq<char>, pos: int, acc: Seq<BloatEntryView>, verbose: bool) {
    if 0 <= pos < s.len() {
        crate::strutil::lemma_find_char_props(s, pos, '\n');
    }
}

/// Every finding parsed out of the usage report keeps the findings'
/// invariant, the engine's reclaimable figure being clamped to the size.
pub proof fn lemma_df_entries_wf(
    s: Seq<char>,
    pos: int,
    acc: Seq<BloatEntryView>,
    verbose: bool,
)
    requires
        crate::detector::all_entries_wf(acc),
    ensures
        match spec_df_scan(s, pos, acc, verbose) {
            Ok(es) => crate::detector::all_entries_wf(es),
            Err(_) => true,
        },
    decreases (if pos >= 0 {
        s.len() - pos
    } else {
        0
    }),
{
    if 0 <= pos < s.len() {
        crate::strutil::lemma_find_char_props(s, pos, '\n');
        let nl = spec_find_char(s, pos, '\n');
        let line = crate::manifest::spec_line_at(s, pos, nl);
        let ty = crate::manifest::json_str_field(line, "Type"@);
        let sz = crate::manifest::json_str_field(line, "Size"@);
        let rc = crate::manifest::json_str_field(line, "Reclaimable"@);
        if spec_trim(line).len() == 0 || ty is None || sz is None || rc is None {
            if nl + 1 <= s.len() {
                lemma_df_entries_wf(s, nl + 1, acc, verbose);
            }
        } else {
            match spec_parse_docker_size(sz->Some_0) {
                Err(_) => {},
                Ok(size) => match spec_parse_docker_size(rc->Some_0) {
                    Err(_) => {},
                    Ok(reclaimable) => {
                        let acc2 = if size == 0 {
                            acc
                        } else {
                            acc.push(spec_df_entry(ty->Some_0, size, reclaimable))
                        };
                        assert forall|i: int| 0 <= i < acc2.len() implies (#[trigger] acc2[i]).wf()
                        by {
                            if i < acc.len() {
                                assert(acc[i].wf());
                            }
                        }
                        if nl + 1 <= s.len() {
                            lemma_df_entries_wf(s, nl + 1, acc2, verbose);
                        }
                    },
                },
            }
        }
    }
}

/// Parse the engine's usage report into findings, one per non-empty usage
/// class.
#[verifier::loop_isolation(false)]
pub fn parse_docker_df_output(stdout: &str, verbose: bool) -> (r: Result<Vec<BloatEntry>, String>)
    ensures
        spec_df_scan(stdout@, 0, Seq::empty(), verbose) == match r {
            Ok(entries) => Ok::<Seq<BloatEntryView>, Seq<char>>(
                crate::detector::entries_view(entries@),
            ),
            Err(e) => Err(e@),
        },
{
    let n = stdout.unicode_len();
    let mut entries: Vec<BloatEntry> = Vec::new();
    let mut pos: usize = 0;
    proof {
        assert(crate::detector::entries_view(entries@) =~= Seq::<BloatEntryView>::empty());
    }
    while pos < n
        invariant
            pos <= n,
            spec_df_scan(stdout@, 0, Seq::empty(), verbose) == spec_df_scan(
                stdout@,
                pos as int,
                crate::detector::entries_view(entries@),
                verbose,
            ),
        decreases n - pos,
    {
        let ghost acc = crate::detector::entries_view(entries@);
        let nl = find_char(stdout, pos, '\n');
        let raw = stdout.substring_char(pos, nl);
        let raw_len = raw.unicode_len();
        let line = if nl < n && raw_len > 0 && raw.get_char(raw_len - 1) == '\r' {
            let l = raw.substring_char(0, raw_len - 1);
            proof {
                assert(l@ =~= crate::manifest::spec_line_at(stdout@, pos as int, nl as int));
            }
            l
        } else {
            proof {
                assert(raw@ =~= crate::manifest::spec_line_at(stdout@, pos as int, nl as int));
            }
            raw
        };
        if trim(line).unicode_len() > 0 {
            let ty = crate::manifest::extract_json_field(line, "Type");
            let sz = crate::manifest::extract_json_field(line, "Size");
            let rc = crate::manifest::extract_json_field(line, "Reclaimable");
            match (ty, sz, rc) {
                (Some(ty), Some(sz), Some(rc)) => {
                    let size = match parse_docker_size(sz.as_str()) {
                        Ok(v) => v,
                        Err(e) => {
                            return Err(e);
                        },
                    };
                    let reclaimable = match parse_docker_size(rc.as_str()) {
                        Ok(v) => v,
                        Err(e) => {
                            return Err(e);
                        },
                    };
                    if size > 0 {
                        let name = df_name(ty.as_str());
                        let hint = get_cleanup_hint(ty.as_str());
                        let ghost tyv = ty@;
                        let entry = BloatEntry {
                            category: BloatCategory::ContainerData,
                            name,
                            location: Location::Aggregate(ty),
                            size_bytes: size,
                            reclaimable_bytes: if reclaimable <= size {
                                reclaimable
                            } else {
                                size
                            },
                            last_modified: None,
                            cleanup_hint: Some(hint),
                        };
                        assert(entry@ == spec_df_entry(tyv, size, reclaimable));
                        entries.push(entry);
                        proof {
                            assert(crate::detector::entries_view(entries@) =~= acc.push(
                                spec_df_entry(tyv, size, reclaimable),
                            ));
                        }
                    }
                },
                _ => {
                    if verbose {
                        return Err(String::from_str("docker: failed to parse output"));
                    }
                },
            }
        }
        if nl >= n {
            return Ok(entries);
        }
        pos = nl + 1;
    }
    Ok(entries)
}

/// Container storage detector; the engine query itself runs outside the
/// library and hands its output here.
pub struct DockerDetector;

impl DockerDetector {
    pub fn name(&self) -> (r: &'static str)
        ensures
            r@ == "docker"@,
    {
        "docker"
    }

    /// The engine detector is always attempted; its absence surfaces as a
    /// diagnostic, never a failure.
    pub fn available(&self, config: &crate::config::Config) -> (r: bool)
        ensures
            r,
    {
        let _ = config;
        true
    }
}

} // verus!
