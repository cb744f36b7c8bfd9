//! Search results and the search pipeline around them.

pub mod cache;
pub mod engine;

use crate::numeric::{f64_value, round_u64, F64_EXACT_LIMIT};
use crate::text::{decimal, digit_char, owned, push_char, push_decimal};
use vstd::prelude::*;

verus! {

/// One file or directory found by a search.
///
/// `score` is the ranking score; every score the ranking assigns is a whole
/// number, so it is held exactly as an integer.
#[derive(Clone, Debug)]
pub struct SearchResult {
    pub path: String,
    pub name: String,
    pub extension: Option<String>,
    pub size: u64,
    pub modified: i64,
    pub is_directory: bool,
    pub score: i64,
}

pub open spec fn option_string_view(o: Option<String>) -> Option<Seq<char>> {
    match o {
        Some(s) => Some(s@),
        None => None,
    }
}

pub open spec fn results_view(o: Option<Vec<SearchResult>>) -> Option<Seq<SearchResult>> {
    match o {
        Some(v) => Some(v@),
        None => None,
    }
}

/// The same value with fresh copies of its strings.
pub fn copy_option_string(o: &Option<String>) -> (r: Option<String>)
    ensures
        r == *o,
{
    match o {
        Some(s) => Some(s.clone()),
        None => None,
    }
}

impl SearchResult {
    /// A field-by-field copy.
    pub fn duplicate(&self) -> (r: SearchResult)
        ensures
            r == *self,
    {
        SearchResult {
            path: self.path.clone(),
            name: self.name.clone(),
            extension: copy_option_string(&self.extension),
            size: self.size,
            modified: self.modified,
            is_directory: self.is_directory,
            score: self.score,
        }
    }
}

/// A copy of a list of results.
pub fn copy_results(v: &Vec<SearchResult>) -> (r: Vec<SearchResult>)
    ensures
        r@ == v@,
{
    let mut r: Vec<SearchResult> = Vec::new();
    let mut i: usize = 0;
    while i < v.len()
        invariant
            i <= v.len(),
            r@ == v@.take(i as int),
        decreases v.len() - i,
    {
        r.push(v[i].duplicate());
        i = i + 1;
        assert(r@ =~= v@.take(i as int));
    }
    assert(v@.take(v.len() as int) =~= v@);
    r
}

/// The fields a full-text index stores for a file, each possibly missing.
pub struct StoredDocument {
    pub path: Option<String>,
    pub name: Option<String>,
    pub extension: Option<String>,
    pub size: Option<u64>,
    pub modified: Option<i64>,
    pub is_directory: Option<bool>,
}

pub open spec fn text_or_empty(o: Option<String>) -> Seq<char> {
    match o {
        Some(s) => s@,
        None => Seq::empty(),
    }
}

impl SearchResult {
    /// The result for a stored document: missing text fields are empty,
    /// missing numbers zero, a missing directory flag false; the score is 0
    /// until ranking sets it.
    pub fn from_stored(doc: StoredDocument) -> (r: SearchResult)
        ensures
            r.path@ == text_or_empty(doc.path),
            r.name@ == text_or_empty(doc.name),
            r.extension == doc.extension,
            r.size == (match doc.size { Some(v) => v, None => 0u64 }),
            r.modified == (match doc.modified { Some(v) => v, None => 0i64 }),
            r.is_directory == (match doc.is_directory { Some(v) => v, None => false }),
            r.score == 0,
    {
        let path = match doc.path {
            Some(p) => p,
            None => String::new(),
        };
        let name = match doc.name {
            Some(n) => n,
            None => String::new(),
        };
        SearchResult {
            path,
            name,
            extension: doc.extension,
            size: match doc.size { Some(v) => v, None => 0 },
            modified: match doc.modified { Some(v) => v, None => 0 },
            is_directory: match doc.is_directory { Some(v) => v, None => false },
            score: 0,
        }
    }
}

/// `num / denom` written with two decimals, rounded to the nearest
/// hundredth, ties to the even hundredth.
pub open spec fn two_decimals(num: nat, denom: nat) -> Seq<char> {
    let scaled = num * 100;
    let n = scaled / denom;
    let r = scaled % denom;
    let hundredths: nat = if r * 2 > denom || (r * 2 == denom && n % 2 == 1) { n + 1 } else { n };
    decimal(hundredths / 100) + seq!['.', digit_char(((hundredths % 100) / 10) as int), digit_char((hundredths % 10) as int)]
}

pub const KIB: u64 = 1024;
pub const MIB: u64 = 1048576;
pub const GIB: u64 = 1073741824;

/// A human-readable size: "Dossier" for a directory; otherwise the size as
/// an `f64` is written in bytes below 1 KiB, else in KB, MB or GB with two
/// decimals.
pub open spec fn size_text(size: u64, is_directory: bool) -> Seq<char> {
    let f = f64_value(size as nat);
    if is_directory {
        "Dossier"@
    } else if f < KIB {
        decimal(f) + " B"@
    } else if f < MIB {
        two_decimals(f, KIB as nat) + " KB"@
    } else if f < GIB {
        two_decimals(f, MIB as nat) + " MB"@
    } else {
        two_decimals(f, GIB as nat) + " GB"@
    }
}

fn push_two_decimals(s: &mut String, num: u128, denom: u128)
    requires
        0 < denom,
        num <= 2 * 0xFFFF_FFFF_FFFF_FFFF,
        1024 <= denom <= 1073741824,
    ensures
        final(s)@ == old(s)@ + two_decimals(num as nat, denom as nat),
{
    let scaled: u128 = num * 100;
    let n = scaled / denom;
    let r = scaled % denom;
    proof {
        assert(n <= scaled / 1024) by {
            vstd::arithmetic::div_mod::lemma_div_is_ordered_by_denominator(scaled as int, 1024, denom as int);
        }
    }
    let hundredths: u128 = if r * 2 > denom || (r * 2 == denom && n % 2 == 1) { n + 1 } else { n };
    proof {
        assert(hundredths / 100 <= 0xFFFF_FFFF_FFFF_FFFF) by (nonlinear_arith)
            requires
                hundredths <= n + 1,
                n <= scaled / 1024,
                scaled == num * 100,
                num <= 2 * 0xFFFF_FFFF_FFFF_FFFF,
        ;
    }
    let whole: u64 = (hundredths / 100) as u64;
    push_decimal(s, whole);
    push_char(s, '.');
    let tenths_digit = crate::text::digit_char_of(((hundredths % 100) / 10) as u64);
    push_char(s, tenths_digit);
    let hundredths_digit = crate::text::digit_char_of((hundredths % 10) as u64);
    push_char(s, hundredths_digit);
    assert(final(s)@ =~= old(s)@ + two_decimals(num as nat, denom as nat));
}

impl SearchResult {
    /// The size in a human-readable form (`size_text`).
    pub fn formatted_size(&self) -> (r: String)
        ensures
            r@ == size_text(self.size, self.is_directory),
    {
        if self.is_directory {
            return owned("Dossier");
        }
        let f = round_u64(self.size, F64_EXACT_LIMIT);
        proof {
            crate::numeric::lemma_round_bounded(self.size as nat, F64_EXACT_LIMIT as nat);
        }
        let mut s = String::new();
        if f < KIB as u128 {
            push_decimal(&mut s, f as u64);
            s.append(" B");
        } else if f < MIB as u128 {
            push_two_decimals(&mut s, f, KIB as u128);
            s.append(" KB");
        } else if f < GIB as u128 {
            push_two_decimals(&mut s, f, MIB as u128);
            s.append(" MB");
        } else {
            push_two_decimals(&mut s, f, GIB as u128);
            s.append(" GB");
        }
        s
    }
}

/// The text `chrono` writes for the UTC instant `secs` seconds after the Unix
/// epoch with the pattern `%Y-%m-%d %H:%M:%S`; `None` where
/// `DateTime::from_timestamp(secs, 0)` has no such instant.
pub uninterp spec fn utc_timestamp_text(secs: i64) -> Option<Seq<char>>;

/// `chrono::DateTime::from_timestamp(secs, 0)` formatted with
/// `%Y-%m-%d %H:%M:%S`. Claimed: the result is the named text, and the epoch
/// itself (0) is always representable and reads `1970-01-01 00:00:00`.
#[verifier::external_body]
fn format_utc_timestamp(secs: i64) -> (r: Option<String>)
    ensures
        option_string_view(r) == utc_timestamp_text(secs),
        secs == 0 ==> option_string_view(r) == Some("1970-01-01 00:00:00"@),
{
    match chrono::DateTime::from_timestamp(secs, 0) {
        Some(instant) => Some(instant.format("%Y-%m-%d %H:%M:%S").to_string()),
        None => None,
    }
}

/// The modification date as UTC text, the epoch where the date is out of range.
pub open spec fn modified_text(modified: i64) -> Seq<char> {
    match utc_timestamp_text(modified) {
        Some(t) => t,
        None => "1970-01-01 00:00:00"@,
    }
}

impl SearchResult {
    /// The modification date as `YYYY-MM-DD HH:MM:SS` (UTC); dates chrono
    /// cannot represent read as the Unix epoch.
    pub fn formatted_modified(&self) -> (r: String)
        ensures
            r@ == modified_text(self.modified),
    {
        match format_utc_timestamp(self.modified) {
            Some(t) => t,
            None => match format_utc_timestamp(0) {
                Some(t) => t,
                None => String::new(),
            },
        }
    }
}

} // verus!
