//! The sign-up grant list: a CSV file whose rows name a phone country code
//! (third column), a phone number (fourth) and the whole tokens granted
//! (fifth). The first row with the activating phone number decides.
use vstd::prelude::*;
use crate::text::str_eq;

verus! {

/// Whether `c` is a decimal digit.
pub open spec fn is_decimal_digit(c: char) -> bool {
    '0' <= c <= '9'
}

/// The number that a string of decimal digits denotes.
pub open spec fn decimal_value(s: Seq<char>) -> int
    decreases s.len(),
{
    if s.len() == 0 {
        0
    } else {
        decimal_value(s.drop_last()) * 10 + (s.last() as u32 - '0' as u32)
    }
}

/// The `i32` that a text denotes, as `str::parse::<i32>` reads it: an
/// optional `+` or `-`, then one or more decimal digits, in range.
pub open spec fn parse_i32_text(s: Seq<char>) -> Option<int> {
    let neg = s.len() > 0 && s[0] == '-';
    let d = if s.len() > 0 && (s[0] == '-' || s[0] == '+') {
        s.skip(1)
    } else {
        s
    };
    let v = if neg {
        -decimal_value(d)
    } else {
        decimal_value(d)
    };
    if d.len() > 0 && (forall|i: int| 0 <= i < d.len() ==> is_decimal_digit(#[trigger] d[i]))
        && i32::MIN <= v <= i32::MAX {
        Some(v)
    } else {
        None
    }
}

/// Calls `str::parse::<i32>`, which accepts an optional sign followed by
/// decimal digits whose value fits an `i32`.
#[verifier::external_body]
fn parse_i32(s: &str) -> (res: Option<i32>)
    ensures
        res is Some <==> parse_i32_text(s@) is Some,
        res matches Some(v) ==> v == parse_i32_text(s@)->0,
{
    s.parse::<i32>().ok()
}

/// Name for what the `csv` crate's `Reader` (with its defaults: a header row,
/// comma separators, double-quote quoting) reads from a file: the fields of
/// each record after the header, up to the first record it fails on, and
/// whether it failed.
pub uninterp spec fn csv_records(data: Seq<u8>) -> (Seq<Seq<Seq<char>>>, bool);

/// Calls `csv::Reader::from_reader(data).records()` and collects the fields
/// of each record until the reader reports an error.
#[verifier::external_body]
fn read_csv_records(data: &[u8]) -> (res: (Vec<Vec<String>>, bool))
    ensures
        rows_view(res.0@) == csv_records(data@).0,
        res.1 == csv_records(data@).1,
{
    let mut rows: Vec<Vec<String>> = Vec::new();
    for record in csv::Reader::from_reader(data).records() {
        match record {
            Ok(r) => rows.push(r.iter().map(|f| f.to_string()).collect()),
            Err(_) => return (rows, true),
        }
    }
    (rows, false)
}

/// The rows as sequences of field texts.
pub open spec fn rows_view(rows: Seq<Vec<String>>) -> Seq<Seq<Seq<char>>> {
    rows.map_values(|r: Vec<String>| r@.map_values(|c: String| c@))
}

/// The grant for a phone number: the amount of the first row with that
/// country code and number, or 0 when no row has it. `None` when the list
/// cannot answer: a row before the match has fewer than five fields, the
/// matching amount is not an `i32`, or the file breaks off before a match.
pub open spec fn grant_for(
    rows: Seq<Seq<Seq<char>>>,
    broken: bool,
    phone_country: Seq<char>,
    phone_number: Seq<char>,
) -> Option<int>
    decreases rows.len(),
{
    if rows.len() == 0 {
        if broken {
            None
        } else {
            Some(0)
        }
    } else {
        let r = rows[0];
        if r.len() < 5 {
            None
        } else if r[2] == phone_country && r[3] == phone_number {
            parse_i32_text(r[4])
        } else {
            grant_for(rows.drop_first(), broken, phone_country, phone_number)
        }
    }
}

/// Looks up the grant for a phone number in the rows of the grant list;
/// `broken` says whether the file broke off after those rows.
pub fn activation_grant(
    rows: &Vec<Vec<String>>,
    broken: bool,
    phone_country: &str,
    phone_number: &str,
) -> (grant: Option<i32>)
    ensures
        grant is Some <==> grant_for(rows_view(rows@), broken, phone_country@, phone_number@) is Some,
        grant matches Some(g) ==> g == grant_for(
            rows_view(rows@),
            broken,
            phone_country@,
            phone_number@,
        )->0,
{
    let ghost all = rows_view(rows@);
    let mut i: usize = 0;
    proof {
        assert(all.skip(0) =~= all);
    }
    while i < rows.len()
        invariant
            i <= rows@.len(),
            all == rows_view(rows@),
            grant_for(all, broken, phone_country@, phone_number@) == grant_for(
                all.skip(i as int),
                broken,
                phone_country@,
                phone_number@,
            ),
        decreases rows@.len() - i,
    {
        let row = &rows[i];
        proof {
            assert(all.skip(i as int)[0] == all[i as int]);
            assert(all[i as int] == row@.map_values(|c: String| c@));
            assert(all.skip(i as int).drop_first() =~= all.skip(i + 1));
        }
        if row.len() < 5 {
            return None;
        }
        if str_eq(row[2].as_str(), phone_country) && str_eq(row[3].as_str(), phone_number) {
            return parse_i32(row[4].as_str());
        }
        i = i + 1;
    }
    proof {
        assert(all.skip(i as int) =~= Seq::<Seq<Seq<char>>>::empty());
    }
    if broken {
        None
    } else {
        Some(0)
    }
}

/// Reads the grant list (a CSV file with a header row whose records hold
/// the phone country code, the number and the whole tokens granted in their
/// third, fourth and fifth fields) and looks up the grant for a phone number.
pub fn grant_from_list(data: &[u8], phone_country: &str, phone_number: &str) -> (grant: Option<i32>)
    ensures
        grant is Some <==> grant_for(
            csv_records(data@).0,
            csv_records(data@).1,
            phone_country@,
            phone_number@,
        ) is Some,
        grant matches Some(g) ==> g == grant_for(
            csv_records(data@).0,
            csv_records(data@).1,
            phone_country@,
            phone_number@,
        )->0,
{
    let (rows, broken) = read_csv_records(data);
    activation_grant(&rows, broken, phone_country, phone_number)
}

} // verus!
