use vstd::prelude::*;
use vstd::string::StringExecFns;

use crate::decimal::{decimal, push_decimal, push_signed_decimal, signed_decimal};

verus! {

/// What every viewer is shown: the item under the cursor, the address of the
/// page, and the two positions as (current, total), the current one counted
/// from one.
#[derive(Debug)]
pub struct ClientState {
    pub manga_name: String,
    pub page_src: String,
    pub manga_score: i64,
    pub manga_comment: String,
    pub manga_pos: (usize, usize),
    pub page_pos: (usize, usize),
}

/// A snapshot as mathematics.
pub struct ClientStateView {
    pub manga_name: Seq<char>,
    pub page_src: Seq<char>,
    pub manga_score: i64,
    pub manga_comment: Seq<char>,
    pub manga_pos: (nat, nat),
    pub page_pos: (nat, nat),
}

impl View for ClientState {
    type V = ClientStateView;

    open spec fn view(&self) -> ClientStateView {
        ClientStateView {
            manga_name: self.manga_name@,
            page_src: self.page_src@,
            manga_score: self.manga_score,
            manga_comment: self.manga_comment@,
            manga_pos: (self.manga_pos.0 as nat, self.manga_pos.1 as nat),
            page_pos: (self.page_pos.0 as nat, self.page_pos.1 as nat),
        }
    }
}

/// The address under which a page is fetched: the path of the image route with
/// the item index and the page index as its two query parameters.
pub open spec fn page_address(manga: nat, page: nat) -> Seq<char> {
    "/image?manga="@ + decimal(manga) + "&page="@ + decimal(page)
}

/// The text of a JSON string literal for `text`, quotes included, as
/// `serde_json` writes it.
pub uninterp spec fn json_quoted(text: Seq<char>) -> Seq<char>;

/// A pair of numbers as a JSON array.
pub open spec fn json_pair(pair: (nat, nat)) -> Seq<char> {
    "["@ + decimal(pair.0) + ","@ + decimal(pair.1) + "]"@
}

/// The JSON object of a snapshot, given the three texts already quoted: the
/// six members in the order of the fields, without any space.
pub open spec fn snapshot_frame(
    name: Seq<char>,
    src: Seq<char>,
    score: i64,
    comment: Seq<char>,
    manga_pos: (nat, nat),
    page_pos: (nat, nat),
) -> Seq<char> {
    "{\"manga_name\":"@ + name + ",\"page_src\":"@ + src + ",\"manga_score\":"@ + signed_decimal(
        score as int,
    ) + ",\"manga_comment\":"@ + comment + ",\"manga_pos\":"@ + json_pair(manga_pos)
        + ",\"page_pos\":"@ + json_pair(page_pos) + "}"@
}

/// The JSON text of a snapshot.
pub open spec fn snapshot_json(s: ClientStateView) -> Seq<char> {
    snapshot_frame(
        json_quoted(s.manga_name),
        json_quoted(s.page_src),
        s.manga_score,
        json_quoted(s.manga_comment),
        s.manga_pos,
        s.page_pos,
    )
}

/// Calls `serde_json::to_string` on a string slice. The result is the JSON
/// string literal of the text: a quote, the text with quotes, backslashes and
/// control characters escaped, and a quote. For a string slice the call writes
/// into memory and has no error to report.
#[verifier::external_body]
fn json_quote(text: &str) -> (quoted: String)
    ensures
        quoted@ == json_quoted(text@),
{
    match serde_json::to_string(text) {
        Ok(quoted) => quoted,
        Err(_) => String::new(),
    }
}

/// The address of a page, for the `page_src` of a snapshot.
pub fn page_src(manga: usize, page: usize) -> (src: String)
    ensures
        src@ == page_address(manga as nat, page as nat),
{
    let mut src = String::from_str("/image?manga=");
    push_decimal(&mut src, manga as u64);
    src.append("&page=");
    push_decimal(&mut src, page as u64);
    src
}

fn push_pair(out: &mut String, pair: (usize, usize))
    ensures
        final(out)@ == old(out)@ + json_pair((pair.0 as nat, pair.1 as nat)),
{
    out.append("[");
    push_decimal(out, pair.0 as u64);
    out.append(",");
    push_decimal(out, pair.1 as u64);
    out.append("]");
    assert(out@ =~= old(out)@ + json_pair((pair.0 as nat, pair.1 as nat)));
}

/// Puts the members of a snapshot into one JSON object. The three texts come
/// in as JSON string literals, quotes included.
pub fn frame_snapshot(
    name: &str,
    src: &str,
    score: i64,
    comment: &str,
    manga_pos: (usize, usize),
    page_pos: (usize, usize),
) -> (json: String)
    ensures
        json@ == snapshot_frame(
            name@,
            src@,
            score,
            comment@,
            (manga_pos.0 as nat, manga_pos.1 as nat),
            (page_pos.0 as nat, page_pos.1 as nat),
        ),
{
    let mut json = String::from_str("{\"manga_name\":");
    json.append(name);
    json.append(",\"page_src\":");
    json.append(src);
    json.append(",\"manga_score\":");
    push_signed_decimal(&mut json, score);
    json.append(",\"manga_comment\":");
    json.append(comment);
    json.append(",\"manga_pos\":");
    push_pair(&mut json, manga_pos);
    json.append(",\"page_pos\":");
    push_pair(&mut json, page_pos);
    json.append("}");
    json
}

impl ClientState {
    /// The snapshot as the JSON text that is sent to the viewers.
    pub fn to_json(&self) -> (json: String)
        ensures
            json@ == snapshot_json(self@),
    {
        let name = json_quote(self.manga_name.as_str());
        let src = json_quote(self.page_src.as_str());
        let comment = json_quote(self.manga_comment.as_str());
        frame_snapshot(
            name.as_str(),
            src.as_str(),
            self.manga_score,
            comment.as_str(),
            self.manga_pos,
            self.page_pos,
        )
    }
}

} // verus!
