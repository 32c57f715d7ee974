use vstd::prelude::*;

use crate::document::{lines_view, spec_split, split_text_keep};
use crate::text::{append_str, chars_to_string, fmt_usize, spec_dec, str_chars};

verus! {

/// A decimal digit.
pub open spec fn spec_is_digit(c: char) -> bool {
    '0' <= c && c <= '9'
}

/// The numeric value of a decimal digit character.
pub open spec fn spec_digit_val(c: char) -> int {
    c as int - 48
}

/// A non-empty, all-digit sequence.
pub open spec fn spec_all_digits(s: Seq<char>) -> bool {
    s.len() >= 1 && (forall|i: int| 0 <= i < s.len() ==> spec_is_digit(#[trigger] s[i]))
}

/// The number the digit sequence stands for.
pub open spec fn spec_digits_val(s: Seq<char>) -> int
    decreases s.len(),
{
    if s.len() == 0 {
        0
    } else {
        spec_digits_val(s.drop_last()) * 10 + spec_digit_val(s.last())
    }
}

proof fn lemma_digits_val_nonneg(s: Seq<char>)
    requires
        forall|i: int| 0 <= i < s.len() ==> spec_is_digit(#[trigger] s[i]),
    ensures
        spec_digits_val(s) >= 0,
    decreases s.len(),
{
    if s.len() > 0 {
        assert(forall|i: int|
            0 <= i < s.drop_last().len() ==> spec_is_digit(#[trigger] s.drop_last()[i]));
        lemma_digits_val_nonneg(s.drop_last());
    }
}

/// A prefix of a digit string never exceeds the whole string's value.
proof fn lemma_digits_prefix_le(s: Seq<char>, i: int)
    requires
        0 <= i <= s.len(),
        forall|j: int| 0 <= j < s.len() ==> spec_is_digit(#[trigger] s[j]),
    ensures
        spec_digits_val(s.take(i)) <= spec_digits_val(s),
    decreases s.len() - i,
{
    if i < s.len() {
        lemma_digits_prefix_le(s, i + 1);
        assert(s.take(i + 1).drop_last() =~= s.take(i));
        assert(forall|j: int| 0 <= j < s.take(i).len() ==> spec_is_digit(#[trigger] s.take(i)[j]));
        lemma_digits_val_nonneg(s.take(i));
        assert(spec_digits_val(s.take(i + 1)) == spec_digits_val(s.take(i)) * 10 + spec_digit_val(
            s.take(i + 1).last(),
        ));
    } else {
        assert(s.take(i) =~= s);
    }
}

/// Parses a non-empty string of decimal digits whose value fits.
pub fn parse_u32(digits: &Vec<char>) -> (r: Option<u32>)
    ensures
        match r {
            Option::Some(v) => spec_all_digits(digits@) && v as int == spec_digits_val(digits@),
            Option::None => !(spec_all_digits(digits@) && spec_digits_val(digits@)
                <= u32::MAX as int),
        },
{
    let n = digits.len();
    if n == 0 {
        return Option::None;
    }
    let mut acc: u32 = 0;
    let mut i: usize = 0;
    assert(digits@.take(0) =~= Seq::<char>::empty());
    while i < n
        invariant
            i <= n,
            n == digits@.len(),
            forall|t: int| 0 <= t < i ==> spec_is_digit(#[trigger] digits@[t]),
            acc as int == spec_digits_val(digits@.take(i as int)),
        decreases n - i,
    {
        let c = digits[i];
        if c < '0' || c > '9' {
            return Option::None;
        }
        let d = (c as u32) - 48;
        assert(d as int == spec_digit_val(c));
        assert(d <= 9);
        if acc > (u32::MAX - d) / 10 {
            proof {
                let q = ((u32::MAX - d) as int) / 10;
                assert(q * 10 + ((u32::MAX - d) as int) % 10 == (u32::MAX - d) as int);
                assert(acc as int >= q + 1);
                assert((q + 1) * 10 == q * 10 + 10) by (nonlinear_arith);
                assert(acc as int * 10 >= (q + 1) * 10) by (nonlinear_arith)
                    requires
                        acc as int >= q + 1,
                ;
                assert(acc as int * 10 + d as int > u32::MAX as int);
                assert(digits@.take(i + 1).drop_last() =~= digits@.take(i as int));
                assert(spec_digits_val(digits@.take(i + 1)) > u32::MAX as int);
                if spec_all_digits(digits@) {
                    lemma_digits_prefix_le(digits@, i + 1);
                }
            }
            return Option::None;
        }
        proof {
            let q = ((u32::MAX - d) as int) / 10;
            assert(q * 10 + ((u32::MAX - d) as int) % 10 == (u32::MAX - d) as int);
            assert(acc as int * 10 <= q * 10) by (nonlinear_arith)
                requires
                    acc as int <= q,
            ;
            assert(acc as int * 10 + d as int <= u32::MAX as int);
            assert(digits@.take(i + 1).drop_last() =~= digits@.take(i as int));
        }
        acc = acc * 10 + d;
        i = i + 1;
    }
    assert(digits@.take(n as int) =~= digits@);
    Option::Some(acc)
}

/// A version string splits on dots into exactly three parts and the part
/// to bump is a number that can still grow.
pub open spec fn spec_version_ok(v: Seq<char>, part: int) -> bool {
    let p = spec_split(v, '.');
    &&& p.len() == 3
    &&& spec_all_digits(p[part])
    &&& spec_digits_val(p[part]) < u32::MAX as int
}

/// The version with its patch number one higher.
pub open spec fn spec_bumped_patch(v: Seq<char>) -> Seq<char> {
    let p = spec_split(v, '.');
    p[0] + "."@ + p[1] + "."@ + spec_dec(spec_digits_val(p[2]) + 1)
}

/// The version with its minor number one higher and the patch reset.
pub open spec fn spec_bumped_minor(v: Seq<char>) -> Seq<char> {
    let p = spec_split(v, '.');
    p[0] + "."@ + spec_dec(spec_digits_val(p[1]) + 1) + ".0"@
}

/// The version with its major number one higher and the rest reset.
pub open spec fn spec_bumped_major(v: Seq<char>) -> Seq<char> {
    let p = spec_split(v, '.');
    spec_dec(spec_digits_val(p[0]) + 1) + ".0.0"@
}

fn version_parts(version: &str) -> (r: Vec<Vec<char>>)
    ensures
        lines_view(r@) == spec_split(version@, '.'),
        r@.len() >= 1,
{
    let chars = str_chars(version);
    split_text_keep(&chars, '.')
}

fn format_error(prefix: &str, rest: &str) -> (r: String)
    ensures
        r@ == prefix@ + rest@,
{
    let mut e = String::new();
    append_str(&mut e, prefix);
    append_str(&mut e, rest);
    e
}

/// Increments the patch number of a `major.minor.patch` version string.
/// Fails when the string is not three dot-separated parts, or when the
/// patch part is not a number that can grow.
pub fn increment_patch_version(version: &str) -> (r: Result<String, String>)
    ensures
        spec_version_ok(version@, 2) ==> (r is Ok && r->Ok_0@ == spec_bumped_patch(version@)),
        !spec_version_ok(version@, 2) ==> r is Err,
        (spec_split(version@, '.').len() != 3) ==> (r is Err && r->Err_0@
            == "Invalid version format: "@ + version@),
        (spec_split(version@, '.').len() == 3 && !spec_version_ok(version@, 2)) ==> (r is Err
            && r->Err_0@ == "Invalid patch version: "@ + spec_split(version@, '.')[2]),
{
    let parts = version_parts(version);
    if parts.len() != 3 {
        return Result::Err(format_error("Invalid version format: ", version));
    }
    let patch = parse_u32(&parts[2]);
    match patch {
        Option::Some(p) => {
            if p == u32::MAX {
                let part = chars_to_string(&parts[2]);
                return Result::Err(format_error("Invalid patch version: ", part.as_str()));
            }
            let mut s = chars_to_string(&parts[0]);
            append_str(&mut s, ".");
            let mid = chars_to_string(&parts[1]);
            append_str(&mut s, mid.as_str());
            append_str(&mut s, ".");
            let num = fmt_usize(((p + 1) as usize));
            append_str(&mut s, num.as_str());
            proof {
                assert(s@ =~= spec_bumped_patch(version@));
            }
            Result::Ok(s)
        },
        Option::None => {
            let part = chars_to_string(&parts[2]);
            Result::Err(format_error("Invalid patch version: ", part.as_str()))
        },
    }
}

/// Increments the minor number of a `major.minor.patch` version string
/// and resets the patch to zero. Only the minor part must be a number.
pub fn increment_minor_version(version: &str) -> (r: Result<String, String>)
    ensures
        spec_version_ok(version@, 1) ==> (r is Ok && r->Ok_0@ == spec_bumped_minor(version@)),
        !spec_version_ok(version@, 1) ==> r is Err,
        (spec_split(version@, '.').len() != 3) ==> (r is Err && r->Err_0@
            == "Invalid version format: "@ + version@),
        (spec_split(version@, '.').len() == 3 && !spec_version_ok(version@, 1)) ==> (r is Err
            && r->Err_0@ == "Invalid minor version: "@ + spec_split(version@, '.')[1]),
{
    let parts = version_parts(version);
    if parts.len() != 3 {
        return Result::Err(format_error("Invalid version format: ", version));
    }
    let minor = parse_u32(&parts[1]);
    match minor {
        Option::Some(p) => {
            if p == u32::MAX {
                let part = chars_to_string(&parts[1]);
                return Result::Err(format_error("Invalid minor version: ", part.as_str()));
            }
            let mut s = chars_to_string(&parts[0]);
            append_str(&mut s, ".");
            let num = fmt_usize(((p + 1) as usize));
            append_str(&mut s, num.as_str());
            append_str(&mut s, ".0");
            proof {
                assert(s@ =~= spec_bumped_minor(version@));
            }
            Result::Ok(s)
        },
        Option::None => {
            let part = chars_to_string(&parts[1]);
            Result::Err(format_error("Invalid minor version: ", part.as_str()))
        },
    }
}

/// Increments the major number of a `major.minor.patch` version string
/// and resets the rest to zero. Only the major part must be a number.
pub fn increment_major_version(version: &str) -> (r: Result<String, String>)
    ensures
        spec_version_ok(version@, 0) ==> (r is Ok && r->Ok_0@ == spec_bumped_major(version@)),
        !spec_version_ok(version@, 0) ==> r is Err,
        (spec_split(version@, '.').len() != 3) ==> (r is Err && r->Err_0@
            == "Invalid version format: "@ + version@),
        (spec_split(version@, '.').len() == 3 && !spec_version_ok(version@, 0)) ==> (r is Err
            && r->Err_0@ == "Invalid major version: "@ + spec_split(version@, '.')[0]),
{
    let parts = version_parts(version);
    if parts.len() != 3 {
        return Result::Err(format_error("Invalid version format: ", version));
    }
    let major = parse_u32(&parts[0]);
    match major {
        Option::Some(p) => {
            if p == u32::MAX {
                let part = chars_to_string(&parts[0]);
                return Result::Err(format_error("Invalid major version: ", part.as_str()));
            }
            let num = fmt_usize(((p + 1) as usize));
            let mut s = String::new();
            append_str(&mut s, num.as_str());
            append_str(&mut s, ".0.0");
            proof {
                assert(s@ =~= spec_bumped_major(version@));
            }
            Result::Ok(s)
        },
        Option::None => {
            let part = chars_to_string(&parts[0]);
            Result::Err(format_error("Invalid major version: ", part.as_str()))
        },
    }
}

} // verus!
