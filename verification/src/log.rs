//! The line that is logged for each request that was sent.
use vstd::prelude::*;

use crate::decimal::{decimal, decimal_text};
use crate::request::Method;
use crate::segment::{first_path_segment, first_segment, law_first_segment_hides_the_rest};

verus! {

/// The name of a method.
pub open spec fn method_text(method: Method) -> Seq<char> {
    match method {
        Method::Get => "GET"@,
        Method::Post => "POST"@,
    }
}

/// What was asked of which server, as far as it is logged: of the path, only
/// the first segment shows.
pub open spec fn asked(method: Method, base_url: Seq<char>, path: Seq<char>) -> Seq<char> {
    method_text(method) + " "@ + base_url + first_segment(path)
}

/// The line for a request that was answered.
pub open spec fn answered_text(
    method: Method,
    base_url: Seq<char>,
    path: Seq<char>,
    status: u16,
    version: Seq<char>,
    duration_ms: Seq<char>,
    size_kib: Seq<char>,
) -> Seq<char> {
    asked(method, base_url, path) + " => "@ + decimal_text(status as nat) + ", "@ + version + ", "@
        + duration_ms + "ms, "@ + size_kib + "KiB"@
}

/// The line for a request that was not answered.
pub open spec fn failed_text(
    method: Method,
    base_url: Seq<char>,
    path: Seq<char>,
    duration_ms: Seq<char>,
    error: Seq<char>,
) -> Seq<char> {
    asked(method, base_url, path) + " => error, "@ + duration_ms + "ms: "@ + error
}

/// What was asked of which server.
fn asked_line(method: Method, base_url: &str, path: &str) -> (line: String)
    ensures
        line@ == asked(method, base_url@, path@),
{
    let mut line = match method {
        Method::Get => "GET".to_owned(),
        Method::Post => "POST".to_owned(),
    };
    line.append(" ");
    line.append(base_url);
    line.append(first_path_segment(path));
    line
}

/// The line for a request that was answered, with the time that it took and the
/// size of the body as text.
pub fn answered_line(
    method: Method,
    base_url: &str,
    path: &str,
    status: u16,
    version: &str,
    duration_ms: &str,
    size_kib: &str,
) -> (line: String)
    ensures
        line@ == answered_text(
            method,
            base_url@,
            path@,
            status,
            version@,
            duration_ms@,
            size_kib@,
        ),
{
    let mut line = asked_line(method, base_url, path);
    line.append(" => ");
    line.append(decimal(status as u64).as_str());
    line.append(", ");
    line.append(version);
    line.append(", ");
    line.append(duration_ms);
    line.append("ms, ");
    line.append(size_kib);
    line.append("KiB");
    line
}

/// The line for a request that was not answered, with the time that it took and
/// the error as text.
pub fn failed_line(
    method: Method,
    base_url: &str,
    path: &str,
    duration_ms: &str,
    error: &str,
) -> (line: String)
    ensures
        line@ == failed_text(method, base_url@, path@, duration_ms@, error@),
{
    let mut line = asked_line(method, base_url, path);
    line.append(" => error, ");
    line.append(duration_ms);
    line.append("ms: ");
    line.append(error);
    line
}

/// The log keeps to itself what is asked about: two requests that begin with
/// the same segment leave the same lines, whatever follows in their paths.
pub proof fn law_lines_hide_parameters(
    method: Method,
    base_url: Seq<char>,
    name: Seq<char>,
    rest: Seq<char>,
    other: Seq<char>,
)
    requires
        !name.contains('/'),
    ensures
        ({
            let path = seq!['/'] + name + seq!['/'] + rest;
            let other_path = seq!['/'] + name + seq!['/'] + other;
            &&& asked(method, base_url, path) == asked(method, base_url, other_path)
            &&& forall|status: u16, version: Seq<char>, ms: Seq<char>, kib: Seq<char>| #[trigger]
                answered_text(method, base_url, path, status, version, ms, kib) == answered_text(
                    method,
                    base_url,
                    other_path,
                    status,
                    version,
                    ms,
                    kib,
                )
            &&& forall|ms: Seq<char>, error: Seq<char>| #[trigger]
                failed_text(method, base_url, path, ms, error) == failed_text(
                    method,
                    base_url,
                    other_path,
                    ms,
                    error,
                )
        }),
{
    law_first_segment_hides_the_rest(name, rest);
    law_first_segment_hides_the_rest(name, other);
}

/// A path that begins with `prefix`, a name between two slashes, has that name
/// for its first segment, however it goes on.
proof fn lemma_endpoint(
    prefix: Seq<char>,
    segment: Seq<char>,
    id: Seq<char>,
    suffix: Seq<char>,
    more: Seq<char>,
)
    requires
        segment.len() > 0,
        segment[0] == '/',
        !segment.skip(1).contains('/'),
        prefix == segment + seq!['/'],
    ensures
        first_segment(prefix + id) == segment,
        first_segment(prefix + id + suffix) == segment,
        first_segment(prefix + id + suffix + more) == segment,
{
    let name = segment.skip(1);
    assert(segment =~= seq!['/'] + name);
    law_first_segment_hides_the_rest(name, id);
    law_first_segment_hides_the_rest(name, id + suffix);
    law_first_segment_hides_the_rest(name, id + suffix + more);
    assert(prefix + id =~= seq!['/'] + name + seq!['/'] + id);
    assert(prefix + id + suffix =~= seq!['/'] + name + seq!['/'] + (id + suffix));
    assert(prefix + id + suffix + more =~= seq!['/'] + name + seq!['/'] + (id + suffix + more));
}

/// Of the path of an endpoint that takes parameters, the log shows the endpoint
/// and none of the parameters.
pub proof fn law_endpoints_hide_parameters(id: Seq<char>, suffix: Seq<char>, more: Seq<char>)
    ensures
        first_segment("/tx/"@ + id) == "/tx"@,
        first_segment("/tx/"@ + id + suffix) == "/tx"@,
        first_segment("/tx/"@ + id + suffix + more) == "/tx"@,
        first_segment("/block/"@ + id) == "/block"@,
        first_segment("/block/"@ + id + suffix) == "/block"@,
        first_segment("/block/"@ + id + suffix + more) == "/block"@,
        first_segment("/block-height/"@ + id) == "/block-height"@,
        first_segment("/blocks/"@ + id) == "/blocks"@,
        first_segment("/address/"@ + id) == "/address"@,
        first_segment("/address/"@ + id + suffix) == "/address"@,
        first_segment("/address/"@ + id + suffix + more) == "/address"@,
        first_segment("/scripthash/"@ + id) == "/scripthash"@,
        first_segment("/scripthash/"@ + id + suffix) == "/scripthash"@,
        first_segment("/scripthash/"@ + id + suffix + more) == "/scripthash"@,
{
    reveal_strlit("/tx");
    reveal_strlit("/tx/");
    reveal_strlit("/block");
    reveal_strlit("/block/");
    reveal_strlit("/block-height");
    reveal_strlit("/block-height/");
    reveal_strlit("/blocks");
    reveal_strlit("/blocks/");
    reveal_strlit("/address");
    reveal_strlit("/address/");
    reveal_strlit("/scripthash");
    reveal_strlit("/scripthash/");
    assert("/tx/"@ =~= "/tx"@ + seq!['/']);
    assert("/block/"@ =~= "/block"@ + seq!['/']);
    assert("/block-height/"@ =~= "/block-height"@ + seq!['/']);
    assert("/blocks/"@ =~= "/blocks"@ + seq!['/']);
    assert("/address/"@ =~= "/address"@ + seq!['/']);
    assert("/scripthash/"@ =~= "/scripthash"@ + seq!['/']);
    lemma_endpoint("/tx/"@, "/tx"@, id, suffix, more);
    lemma_endpoint("/block/"@, "/block"@, id, suffix, more);
    lemma_endpoint("/block-height/"@, "/block-height"@, id, suffix, more);
    lemma_endpoint("/blocks/"@, "/blocks"@, id, suffix, more);
    lemma_endpoint("/address/"@, "/address"@, id, suffix, more);
    lemma_endpoint("/scripthash/"@, "/scripthash"@, id, suffix, more);
}

/// The lines of both methods, with everything that they show in its place: the
/// method, the server, the first segment of the path, and then the status in
/// decimal, the version, the time and the size, or the time and the error.
pub proof fn law_lines_show(
    base_url: Seq<char>,
    path: Seq<char>,
    status: u16,
    version: Seq<char>,
    duration_ms: Seq<char>,
    size_kib: Seq<char>,
    error: Seq<char>,
)
    ensures
        answered_text(
            Method::Get,
            base_url,
            path,
            status,
            version,
            duration_ms,
            size_kib,
        ) == "GET"@ + " "@ + base_url + first_segment(path) + " => "@ + decimal_text(status as nat)
            + ", "@ + version + ", "@ + duration_ms + "ms, "@ + size_kib + "KiB"@,
        answered_text(
            Method::Post,
            base_url,
            path,
            status,
            version,
            duration_ms,
            size_kib,
        ) == "POST"@ + " "@ + base_url + first_segment(path) + " => "@ + decimal_text(status as nat)
            + ", "@ + version + ", "@ + duration_ms + "ms, "@ + size_kib + "KiB"@,
        failed_text(Method::Get, base_url, path, duration_ms, error) == "GET"@ + " "@ + base_url + first_segment(path)
            + " => error, "@ + duration_ms + "ms: "@ + error,
        failed_text(Method::Post, base_url, path, duration_ms, error) == "POST"@ + " "@ + base_url + first_segment(path)
            + " => error, "@ + duration_ms + "ms: "@ + error,
{
}

} // verus!
