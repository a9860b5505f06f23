//! The two clients that test the network: a plain HTTP request, and the fetching of
//! a page.
use vstd::prelude::*;
use vstd::string::StringExecFns;

use crate::text;

verus! {

/// The host that the plain request goes to.
pub const HOST: &'static str = "one.one.one.one:80";

/// The plain request.
pub const REQUEST: &'static str = "GET / HTTP/1.0\n\n";

/// The page that is fetched.
pub const PAGE: &'static str = "https://google.com";

/// How much of a page is kept.
pub const PAGE_LIMIT: usize = 3048;

/// The bytes of the plain request.
pub fn request() -> (bytes: Vec<u8>)
    ensures
        bytes@ == vstd::utf8::encode_utf8(REQUEST@),
{
    vstd::slice::slice_to_vec(REQUEST.as_bytes())
}

/// The error of `std::str::from_utf8`.
#[verifier::external_type_specification]
#[verifier::external_body]
pub struct ExUtf8Error(core::str::Utf8Error);

/// `std::str::from_utf8`: bytes are text exactly where they are valid UTF-8, and the
/// text is what they encode.
pub assume_specification[ core::str::from_utf8 ](v: &[u8]) -> (res: Result<
    &str,
    core::str::Utf8Error,
>)
    ensures
        res is Ok <==> vstd::utf8::valid_utf8(v@),
        res matches Ok(s) ==> vstd::utf8::encode_utf8(s@) == v@,
;

/// What the plain client reports of an answer.
pub open spec fn report_text(answer: Seq<char>) -> Seq<char> {
    "1.1.1.1 returned:\n=================\n"@ + answer
        + "\n=================\nSince it returned something, all is OK"@
}

/// The report on an answer, where it is text.
pub open spec fn report_on(answer: Seq<u8>) -> Option<Seq<char>> {
    if vstd::utf8::valid_utf8(answer) {
        Some(report_text(vstd::utf8::decode_utf8(answer)))
    } else {
        None
    }
}

/// The report on an answer, which has to be text.
pub fn test_tcp(answer: &[u8]) -> (report: Result<String, core::str::Utf8Error>)
    ensures
        report is Ok <==> vstd::utf8::valid_utf8(answer@),
        report matches Ok(report) ==> report@ == report_text(vstd::utf8::decode_utf8(answer@)),
        report is Ok <==> report_on(answer@) is Some,
        report matches Ok(report) ==> report_on(answer@) == Some(report@),
{
    match core::str::from_utf8(answer) {
        Ok(answer_text) => {
            proof {
                vstd::utf8::encode_utf8_decode_utf8(answer_text@);
            }
            let mut report = text::joined("1.1.1.1 returned:\n=================\n", answer_text);
            report.append("\n=================\nSince it returned something, all is OK");
            Ok(report)
        },
        Err(error) => Err(error),
    }
}

/// What `String::from_utf8_lossy` makes of some bytes.
pub uninterp spec fn lossy(bytes: Seq<u8>) -> Seq<char>;

/// `String::from_utf8_lossy`: the bytes as text, with replacement characters for
/// what is no UTF-8. Bytes that are valid give the text that they encode.
#[verifier::external_body]
fn lossy_text(bytes: &[u8]) -> (text: String)
    ensures
        text@ == lossy(bytes@),
        vstd::utf8::valid_utf8(bytes@) ==> text@ == vstd::utf8::decode_utf8(bytes@),
{
    String::from_utf8_lossy(bytes).into_owned()
}

/// The part of a page that was read.
pub open spec fn kept(body: Seq<u8>, read: nat) -> Seq<u8> {
    body.take(read as int)
}

/// The part of a page that was read, as text.
pub fn page_text(body: &[u8], read: usize) -> (text: String)
    requires
        read <= body@.len(),
    ensures
        text@ == lossy(body@.take(read as int)),
        text@ == lossy(kept(body@, read as nat)),
        vstd::utf8::valid_utf8(body@.take(read as int)) ==> text@ == vstd::utf8::decode_utf8(
            body@.take(read as int),
        ),
{
    let part = vstd::slice::slice_subrange(body, 0, read);
    assert(part@ =~= body@.take(read as int));
    lossy_text(part)
}

/// Whether a page is read on after a read of that many bytes.
pub open spec fn goes_on(read: nat) -> bool {
    read > 0
}

/// Whether a page is read on after a read of that many bytes: until one brings
/// nothing.
pub fn reads_on(read: usize) -> (more: bool)
    ensures
        more <==> read > 0,
        more == goes_on(read as nat),
{
    read > 0
}

/// A report holds the whole answer between its two fixed lines, so different answers
/// give different reports.
pub proof fn reports_hold_the_answer(answer: Seq<char>)
    ensures
        ({
            let head = "1.1.1.1 returned:\n=================\n"@;
            let foot = "\n=================\nSince it returned something, all is OK"@;
            let report = report_text(answer);
            let end = (head.len() + answer.len()) as int;
            &&& report.len() == end + foot.len()
            &&& report.take(head.len() as int) == head
            &&& report.subrange(head.len() as int, end) == answer
            &&& report.skip(end) == foot
        }),
{
}

/// Whom the clients ask, for what, and how much of a page is kept.
pub proof fn the_clients_ask_for()
    ensures
        HOST@ == "one.one.one.one:80"@,
        REQUEST@ == "GET / HTTP/1.0\n\n"@,
        PAGE@ == "https://google.com"@,
        PAGE_LIMIT == 3048,
{
}

/// Text of any kind is reported, and nothing else is; what stands between the fixed
/// lines encodes to the very bytes that came.
pub proof fn texts_are_reported(answer: Seq<u8>)
    ensures
        report_on(answer) is Some <==> vstd::utf8::valid_utf8(answer),
        report_on(answer) matches Some(report) ==> {
            let head = "1.1.1.1 returned:\n=================\n"@;
            let foot = "\n=================\nSince it returned something, all is OK"@;
            let start = head.len() as int;
            let end = report.len() - foot.len();
            &&& start <= end
            &&& report.take(start) == head
            &&& report.skip(end) == foot
            &&& report.subrange(start, end) == vstd::utf8::decode_utf8(answer)
            &&& vstd::utf8::encode_utf8(report.subrange(start, end)) == answer
        },
{
    if vstd::utf8::valid_utf8(answer) {
        vstd::utf8::decode_utf8_encode_utf8(answer);
        reports_hold_the_answer(vstd::utf8::decode_utf8(answer));
    }
}

/// Exactly the bytes that were read are kept of a page, and it is read on until a
/// read brings nothing.
pub proof fn pages_are_kept_as_read(body: Seq<u8>, read: nat)
    requires
        read <= body.len(),
    ensures
        kept(body, read).len() == read,
        forall|i: int| 0 <= i < read ==> kept(body, read)[i] == body[i],
        goes_on(read) <==> read != 0,
{
}

} // verus!
