//! Object-storage helpers: aggregation of paginated listings, bucket-name
//! projection, the region fallback, the demonstration multipart plan, and
//! what the presigned-URL operation derives locally from a signed URL (the
//! expiry arithmetic, the `uri.txt` report text, and the QR encoding).

use crate::text::dec_digits;
use crate::text::dec_digits_signed;
use crate::text::i32_to_dec_string;
use crate::text::u64_to_dec_string;
use chrono::Datelike;
use chrono::Timelike;
use vstd::prelude::*;
use vstd::string::StringExecFns;

verus! {

/// The keys one listing page contributes: its contents, or nothing for a
/// page whose fetch failed.
pub open spec fn page_contents(p: Result<Vec<String>, String>) -> Seq<String> {
    match p {
        Ok(v) => v@,
        Err(_) => Seq::empty(),
    }
}

/// The keys of all pages, page order and within-page order kept.
pub open spec fn pages_concat(pages: Seq<Result<Vec<String>, String>>) -> Seq<String>
    decreases pages.len(),
{
    if pages.len() == 0 {
        Seq::empty()
    } else {
        page_contents(pages[0]) + pages_concat(pages.skip(1))
    }
}

/// The fetch errors of the failed pages, in page order.
pub open spec fn pages_errors(pages: Seq<Result<Vec<String>, String>>) -> Seq<String>
    decreases pages.len(),
{
    if pages.len() == 0 {
        Seq::empty()
    } else {
        (match pages[0] {
            Ok(_) => Seq::empty(),
            Err(e) => seq![e],
        }) + pages_errors(pages.skip(1))
    }
}

/// The number of keys the pages report in total.
pub open spec fn pages_len_sum(pages: Seq<Result<Vec<String>, String>>) -> nat
    decreases pages.len(),
{
    if pages.len() == 0 {
        0
    } else {
        page_contents(pages[0]).len() + pages_len_sum(pages.skip(1))
    }
}

/// Concatenates the pages of an object listing into one ordered key
/// sequence; a failed page contributes its error line instead of aborting
/// the remaining pages.
pub fn aggregate_listing_pages(pages: Vec<Result<Vec<String>, String>>) -> (r: (
    Vec<String>,
    Vec<String>,
))
    ensures
        r.0@ == pages_concat(pages@),
        r.1@ == pages_errors(pages@),
{
    let ghost ps = pages@;
    let mut rest = pages;
    let mut keys: Vec<String> = Vec::new();
    let mut errors: Vec<String> = Vec::new();
    while rest.len() > 0
        invariant
            pages_concat(ps) == keys@ + pages_concat(rest@),
            pages_errors(ps) == errors@ + pages_errors(rest@),
        decreases rest@.len(),
    {
        let ghost before = rest@;
        let page = rest.remove(0);
        proof {
            assert(rest@ =~= before.skip(1));
        }
        match page {
            Ok(mut v) => {
                keys.append(&mut v);
                proof {
                    assert(keys@ + pages_concat(rest@) =~= pages_concat(ps));
                    assert(errors@ + pages_errors(rest@) =~= pages_errors(ps));
                }
            },
            Err(e) => {
                errors.push(e);
                proof {
                    assert(keys@ + pages_concat(rest@) =~= pages_concat(ps));
                    assert(errors@ + pages_errors(rest@) =~= pages_errors(ps));
                }
            },
        }
    }
    proof {
        assert(keys@ =~= pages_concat(ps));
        assert(errors@ =~= pages_errors(ps));
    }
    (keys, errors)
}

proof fn lemma_pages_prefix_bound(pages: Seq<Result<Vec<String>, String>>, i: int)
    requires
        0 <= i < pages.len(),
    ensures
        pages_len_sum(pages.take(i)) + page_contents(pages[i]).len() <= pages_len_sum(pages),
    decreases pages.len(),
{
    if i == 0 {
        assert(pages.take(0) =~= Seq::<Result<Vec<String>, String>>::empty());
    } else {
        let rest = pages.skip(1);
        lemma_pages_prefix_bound(rest, i - 1);
        assert(pages.take(i)[0] == pages[0]);
        assert(pages.take(i).skip(1) =~= rest.take(i - 1));
        assert(rest[i - 1] == pages[i]);
    }
}

/// Aggregating a listing loses nothing and reorders nothing: the output
/// length is the sum of the page content lengths, and the key at offset `j`
/// of page `i` stands after exactly the keys of the pages before it.
pub proof fn lemma_listing_preserves_pages(pages: Seq<Result<Vec<String>, String>>)
    ensures
        pages_concat(pages).len() == pages_len_sum(pages),
        forall|i: int, j: int|
            0 <= i < pages.len() && 0 <= j < page_contents(pages[i]).len()
                ==> pages_concat(pages)[pages_len_sum(pages.take(i)) + j] == page_contents(
                pages[i],
            )[j],
    decreases pages.len(),
{
    if pages.len() == 0 {
    } else {
        let rest = pages.skip(1);
        lemma_listing_preserves_pages(rest);
        assert forall|i: int, j: int|
            0 <= i < pages.len() && 0 <= j < page_contents(pages[i]).len() implies pages_concat(
            pages,
        )[pages_len_sum(pages.take(i)) + j] == page_contents(pages[i])[j] by {
            if i == 0 {
                assert(pages.take(0) =~= Seq::<Result<Vec<String>, String>>::empty());
            } else {
                assert(pages.take(i)[0] == pages[0]);
                assert(pages.take(i).skip(1) =~= rest.take(i - 1));
                assert(rest[i - 1] == pages[i]);
                assert(pages_len_sum(pages.take(i)) == page_contents(pages[0]).len()
                    + pages_len_sum(rest.take(i - 1)));
                lemma_pages_prefix_bound(rest, i - 1);
                assert(pages_concat(pages)[pages_len_sum(pages.take(i)) + j] == pages_concat(
                    rest,
                )[pages_len_sum(rest.take(i - 1)) + j]);
            }
        }
    }
}

/// Projects the reported bucket list to its names, in order; the operation
/// requires every reported bucket to carry its name.
pub fn bucket_names(buckets: Option<Vec<Option<String>>>) -> (r: Vec<String>)
    requires
        (match buckets {
            Some(v) => forall|i: int| 0 <= i < v@.len() ==> v@[i] is Some,
            None => true,
        }),
    ensures
        (match buckets {
            Some(v) => r@.len() == v@.len() && forall|i: int|
                0 <= i < v@.len() ==> r@[i] == v@[i].unwrap(),
            None => r@ == Seq::<String>::empty(),
        }),
{
    match buckets {
        Some(v) => {
            let ghost vs = v@;
            let mut r: Vec<String> = Vec::new();
            let mut rest = v;
            while rest.len() > 0
                invariant
                    vs.len() == r@.len() + rest@.len(),
                    rest@ == vs.skip(r@.len() as int),
                    forall|i: int| 0 <= i < vs.len() ==> vs[i] is Some,
                    forall|i: int| 0 <= i < r@.len() ==> r@[i] == vs[i].unwrap(),
                decreases rest@.len(),
            {
                let ghost before = rest@;
                let ghost done = r@.len() as int;
                let name = rest.remove(0);
                proof {
                    assert(rest@ =~= before.skip(1));
                    assert(before[0] == vs[done]);
                }
                match name {
                    Some(n) => r.push(n),
                    None => {
                        proof {
                            assert(false);
                        }
                    },
                }
            }
            r
        },
        None => Vec::new(),
    }
}

/// The note printed when neither the credential configuration nor the
/// environment supplies a region.
pub fn region_or_fallback(region: Option<String>, env_region: Option<String>) -> (r: String)
    ensures
        region matches Some(s) ==> r == s,
        region is None ==> (env_region matches Some(s) ==> r == s),
        region is None && env_region is None
            ==> r@ == "The region value is read from the .env file in the current directory if it is not provided in the credential file"@,
{
    match region {
        Some(s) => s,
        None => match env_region {
            Some(s) => s,
            None => String::from_str(
                "The region value is read from the .env file in the current directory if it is not provided in the credential file",
            ),
        },
    }
}

/// The fixed part number of the demonstration multipart flow, which uploads
/// the whole object as this single part.
pub const MULTIPART_PART_NUMBER: i32 = 30;

/// One completed part as reported back to the provider.
#[derive(Debug)]
pub struct CompletedPartModel {
    pub e_tag: String,
    pub part_number: i32,
}

/// The completed-part list the demonstration multipart flow assembles: one
/// part under the fixed part number, with the reported tag or an empty one.
pub fn multipart_completed_parts(e_tag: Option<String>) -> (r: Vec<CompletedPartModel>)
    ensures
        r@.len() == 1,
        r@[0].part_number == MULTIPART_PART_NUMBER,
        (match e_tag {
            Some(t) => r@[0].e_tag == t,
            None => r@[0].e_tag@ == Seq::<char>::empty(),
        }),
{
    let tag = match e_tag {
        Some(t) => t,
        None => String::new(),
    };
    let mut r: Vec<CompletedPartModel> = Vec::new();
    r.push(CompletedPartModel { e_tag: tag, part_number: MULTIPART_PART_NUMBER });
    r
}

/// The validity window in seconds for a presigned URL good for `end_time`
/// hours.
pub fn hours_to_seconds(end_time: u64) -> (s: u64)
    requires
        end_time <= u64::MAX / 3600,
    ensures
        s == end_time * 3600,
{
    end_time * 60 * 60
}

/// The expiry annotation in hours: the requested window divided by the
/// window the signing configuration reports.
pub fn expiry_hours_label(end_time: u64, expire_secs: u64) -> (h: u64)
    requires
        expire_secs > 0,
        end_time <= u64::MAX / 3600,
    ensures
        h == (3600 * end_time) / (expire_secs as int),
{
    (60 * 60 * end_time) / expire_secs
}

/// A civil-clock timestamp broken into plain fields, as the `uri.txt`
/// report prints it.
#[derive(Debug)]
pub struct UtcParts {
    pub year: i32,
    pub month: u32,
    pub week_day: String,
    pub day: u32,
    pub hour: u32,
    pub minute: u32,
    pub second: u32,
}

/// The field ranges a civil clock reading satisfies.
pub open spec fn wf_utc_parts(t: UtcParts) -> bool {
    &&& 1 <= t.month <= 12
    &&& 1 <= t.day <= 31
    &&& t.hour < 24
    &&& t.minute < 60
    &&& t.second < 60
    &&& t.week_day@.len() == 3
}

/// Relies on chrono's `Utc::now` read through the `Datelike` / `Timelike`
/// accessors, whose documented ranges are month 1–12, day 1–31, hour 0–23,
/// minute 0–59 and second 0–59, and on `Weekday`'s three-letter rendering.
#[verifier::external_body]
fn utc_now_parts() -> (t: UtcParts)
    ensures
        wf_utc_parts(t),
{
    let now = chrono::Utc::now();
    UtcParts {
        year: now.year(),
        month: now.month(),
        week_day: format!("{}", now.weekday()),
        day: now.day(),
        hour: now.hour(),
        minute: now.minute(),
        second: now.second(),
    }
}

/// The full text of the `uri.txt` report: the signed URL, the civil-clock
/// fields of the signing time, and the expiry annotation in hours.
pub open spec fn uri_report_view(url: Seq<char>, t: UtcParts, expire_hours: u64) -> Seq<char> {
    "The URL for the content is: "@ + url + "\n\n\nStarted at\nyear: "@ + dec_digits_signed(
        t.year as int,
    ) + "\nmonth: "@ + dec_digits(t.month as nat) + "\nweek_day: "@ + t.week_day@ + "\nday: "@
        + dec_digits(t.day as nat) + "\nminutes: "@ + dec_digits(t.minute as nat) + "\nhours: "@
        + dec_digits(t.hour as nat) + "\nseconds: "@ + dec_digits(t.second as nat)
        + "\n\nExpired at: "@ + dec_digits(expire_hours as nat) + " h"@
}

/// Renders the `uri.txt` report for the given URL, timestamp and expiry.
pub fn uri_report_text(content_url: &str, t: &UtcParts, expire_hours: u64) -> (r: String)
    ensures
        r@ == uri_report_view(content_url@, *t, expire_hours),
{
    let mut r = String::from_str("The URL for the content is: ");
    r.append(content_url);
    r.append("\n\n\nStarted at\nyear: ");
    let year = i32_to_dec_string(t.year);
    r.append(year.as_str());
    r.append("\nmonth: ");
    let month = u64_to_dec_string(t.month as u64);
    r.append(month.as_str());
    r.append("\nweek_day: ");
    r.append(t.week_day.as_str());
    r.append("\nday: ");
    let day = u64_to_dec_string(t.day as u64);
    r.append(day.as_str());
    r.append("\nminutes: ");
    let minute = u64_to_dec_string(t.minute as u64);
    r.append(minute.as_str());
    r.append("\nhours: ");
    let hour = u64_to_dec_string(t.hour as u64);
    r.append(hour.as_str());
    r.append("\nseconds: ");
    let second = u64_to_dec_string(t.second as u64);
    r.append(second.as_str());
    r.append("\n\nExpired at: ");
    let hours_label = u64_to_dec_string(expire_hours);
    r.append(hours_label.as_str());
    r.append(" h");
    proof {
        assert(r@ =~= uri_report_view(content_url@, *t, expire_hours));
    }
    r
}

#[verifier::external_type_specification]
#[verifier::external_body]
pub struct ExQrModule(fast_qr::Module);

#[verifier::external_type_specification]
#[verifier::external_body]
pub struct ExQRCode(fast_qr::QRCode);

#[verifier::external_type_specification]
#[verifier::external_body]
pub struct ExQRCodeError(fast_qr::qr::QRCodeError);

/// Relies on fast_qr's `QRBuilder::new` / `QRBuilder::build`: encodes the
/// text into a QR matrix, or reports that the data fits no QR version.
#[verifier::external_body]
fn build_url_qr(url: &str) -> (r: Result<fast_qr::QRCode, fast_qr::qr::QRCodeError>) {
    fast_qr::QRBuilder::new(url).build()
}

/// What the presigned-URL operation derives locally from the signed URL:
/// the `uri.txt` report text and the QR encoding of the URL.
pub struct PresignArtifacts {
    pub uri_text: String,
    pub qr: Result<fast_qr::QRCode, fast_qr::qr::QRCodeError>,
}

/// Derives the local artifacts of a presigned URL. The report text is the
/// `uri.txt` rendering for some well-formed reading of the clock; nothing
/// more is knowable of the clock's value.
pub fn presigned_url_artifacts(content_url: &str, expire_hours: u64) -> (r: PresignArtifacts)
    ensures
        exists|t: UtcParts|
            wf_utc_parts(t) && r.uri_text@ == uri_report_view(content_url@, t, expire_hours),
{
    let t = utc_now_parts();
    let text = uri_report_text(content_url, &t, expire_hours);
    let qr = build_url_qr(content_url);
    let r = PresignArtifacts { uri_text: text, qr };
    proof {
        assert(wf_utc_parts(t) && r.uri_text@ == uri_report_view(content_url@, t, expire_hours));
    }
    r
}

} // verus!
