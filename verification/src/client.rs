//! The client side of the protocol: what is sent to the server to have a
//! program verified, and what is made of its answers.

use crate::error::ViperServerError;
use crate::json::{object_text, write_object};
use crate::opts::{CarbonOpts, CarbonOptsBuilder, SiliconOpts, SiliconOptsBuilder};
use crate::server::{answer, settled, stderr_report, stdout_report, ViperServer};
use crate::text::{decimal, quote_path, quoted_path, render_decimal, spaced, text_of};
use crate::verification::decode::{decode_job_text, decode_line, DecodeError};
use crate::verification::schema::{line_status, text_job, DecodeErrorView};
use vstd::prelude::*;
use vstd::string::*;

pub use crate::verification::VerificationStatus;

verus! {

/// A URL.
#[verifier::external_type_specification]
#[verifier::external_body]
pub struct ExUrl(url::Url);

/// A URL as it is written out.
pub uninterp spec fn url_text(url: url::Url) -> Seq<char>;

/// The words of an error of the URL parser.
pub uninterp spec fn url_error_text(e: url::ParseError) -> Seq<char>;

/// What parsing makes of `text`: the URL that it is, as it is written out, or
/// the words of the error that says why it is none.
pub uninterp spec fn parsed_url(text: Seq<char>) -> Result<Seq<char>, Seq<char>>;

/// What reading `path` at the URL `base` gives: the URL that it names, as it
/// is written out, or the words of the error that says why it names none.
pub uninterp spec fn joined_url(base: Seq<char>, path: Seq<char>) -> Result<Seq<char>, Seq<char>>;

/// `Url::parse`: the URL that `text` is, or the error; which is [`parsed_url`]
/// of the text.
#[verifier::external_body]
fn parse_url(text: &str) -> (r: core::result::Result<url::Url, url::ParseError>)
    ensures
        match (r, parsed_url(text@)) {
            (Ok(url), Ok(written)) => written == url_text(url),
            (Err(e), Err(words)) => words == url_error_text(e),
            _ => false,
        },
{
    url::Url::parse(text)
}

/// `Url::join`: the URL that `path` names at `base`, or the error; which is
/// [`joined_url`] of the two.
#[verifier::external_body]
fn join_url(base: &url::Url, path: &str) -> (r: core::result::Result<url::Url, url::ParseError>)
    ensures
        match (r, joined_url(url_text(*base), path@)) {
            (Ok(url), Ok(written)) => written == url_text(url),
            (Err(e), Err(words)) => words == url_error_text(e),
            _ => false,
        },
{
    base.join(path)
}

/// `Url::as_str`: the URL as it is written out.
#[verifier::external_body]
fn url_string(url: &url::Url) -> (r: String)
    ensures
        r@ == url_text(*url),
{
    url.as_str().to_string()
}

/// A request that the server understands.
pub trait ViperRequest {
    /// What the server answers to the request.
    type Response;

    /// The path under the server's address to which the request goes.
    spec fn spec_url(&self) -> Seq<char>;

    /// The type that the request states.
    spec fn spec_ty(&self) -> Seq<char>;

    /// The command that the request carries.
    spec fn spec_command(&self) -> Seq<char>;

    /// Whether `decoded` is what `answer` decodes to.
    spec fn spec_decoded(
        answer: Seq<char>,
        decoded: core::result::Result<Self::Response, DecodeError>,
    ) -> bool;

    /// The path under the server's address to which the request goes.
    fn url(&self) -> (r: &'static str)
        ensures
            r@ == self.spec_url(),
    ;

    /// The type that the request states.
    fn ty(&self) -> (r: &'static str)
        ensures
            r@ == self.spec_ty(),
    ;

    /// The command that the request carries.
    fn command(&self) -> (r: String)
        ensures
            r@ == self.spec_command(),
    ;

    /// Decodes the server's answer to a request of this kind.
    fn decode(answer: &str) -> (r: core::result::Result<Self::Response, DecodeError>)
        ensures
            Self::spec_decoded(answer@, r),
    ;
}

/// The request to verify a file with one of the two backends.
#[derive(Debug, Clone)]
pub enum VerificationRequest {
    Carbon { opts: Box<CarbonOpts>, file: String },
    Silicon { opts: Box<SiliconOpts>, file: String },
}

impl VerificationRequest {
    /// A builder for the options of a verification with Silicon.
    pub fn silicon() -> (r: SiliconOptsBuilder)
        ensures
            r.pending() == SiliconOpts::unset(),
    {
        SiliconOptsBuilder::default()
    }

    /// A builder for the options of a verification with Carbon.
    pub fn carbon() -> (r: CarbonOptsBuilder)
        ensures
            r.pending() == CarbonOpts::unset(),
    {
        CarbonOptsBuilder::default()
    }
}

impl ViperRequest for VerificationRequest {
    type Response = VerificationResponse;

    /// The answer is one JSON document, an object with the two numbers of
    /// the job.
    open spec fn spec_decoded(
        answer: Seq<char>,
        decoded: core::result::Result<VerificationResponse, DecodeError>,
    ) -> bool {
        match (decoded, text_job(answer)) {
            (Ok(job), Ok(expected)) => job == (VerificationResponse {
                ast_id: expected.0,
                id: expected.1,
            }),
            (Err(e), Err(expected)) => e@ == expected,
            _ => false,
        }
    }

    open spec fn spec_url(&self) -> Seq<char> {
        "verify"@
    }

    open spec fn spec_ty(&self) -> Seq<char> {
        "verify"@
    }

    /// The name of the backend, its options as on a command line, and the
    /// file in quotes, with a space between them.
    open spec fn spec_command(&self) -> Seq<char> {
        match *self {
            VerificationRequest::Carbon { opts, file } => "carbon "@ + spaced(opts.args()) + " "@
                + quoted_path(file@),
            VerificationRequest::Silicon { opts, file } => "silicon "@ + spaced(opts.args())
                + " "@ + quoted_path(file@),
        }
    }

    fn url(&self) -> (r: &'static str) {
        "verify"
    }

    fn ty(&self) -> (r: &'static str) {
        "verify"
    }

    fn decode(answer: &str) -> (r: core::result::Result<VerificationResponse, DecodeError>) {
        match decode_job_text(answer) {
            Ok(job) => Ok(VerificationResponse { ast_id: job.0, id: job.1 }),
            Err(e) => Err(e),
        }
    }

    fn command(&self) -> (r: String) {
        match self {
            VerificationRequest::Carbon { opts, file } => {
                let mut out = "carbon ".to_string();
                let options = opts.to_string();
                out.append(options.as_str());
                out.append(" ");
                let shown = quote_path(file.as_str());
                out.append(shown.as_str());
                out
            },
            VerificationRequest::Silicon { opts, file } => {
                let mut out = "silicon ".to_string();
                let options = opts.to_string();
                out.append(options.as_str());
                out.append(" ");
                let shown = quote_path(file.as_str());
                out.append(shown.as_str());
                out
            },
        }
    }
}

impl SiliconOptsBuilder {
    /// Sets the path of Z3 from what the search for it gave: the bytes that
    /// it wrote, as they are, or the reason why it could not be run. Nothing
    /// is set where the search failed or the bytes are no text.
    pub fn detected_z3(&mut self, output: core::result::Result<Vec<u8>, String>) -> (r: Result<
        &mut Self,
        ViperServerError,
    >)
        ensures
            match output {
                Ok(bytes) => if vstd::utf8::valid_utf8(bytes@) {
                    r matches Ok(ret) && (ret.pending().z3_exe matches Some(path) && path@
                        == vstd::utf8::decode_utf8(bytes@)) && ret.pending() == (SiliconOpts {
                        z3_exe: ret.pending().z3_exe,
                        ..old(self).pending()
                    }) && *final(self) == *final(ret)
                } else {
                    r matches Err(ViperServerError::InvalidUtf8 { .. }) && *final(self) == *old(
                        self,
                    )
                },
                Err(cause) => r matches Err(ViperServerError::Io { source }) && source == cause
                    && *final(self) == *old(self),
            },
    {
        match output {
            Ok(bytes) => match text_of(bytes) {
                Ok(path) => {
                    proof {
                        vstd::utf8::encode_utf8_decode_utf8(path@);
                    }
                    Ok(self.z3_exe(path.as_str()))
                },
                Err(source) => Err(ViperServerError::InvalidUtf8 { source }),
            },
            Err(cause) => Err(ViperServerError::Io { source: cause }),
        }
    }

    /// The request to verify `file` with Silicon and the options that were
    /// set.
    pub fn verify_file(&self, file: &str) -> (r: Result<VerificationRequest, ViperServerError>)
        ensures
            r matches Ok(VerificationRequest::Silicon { opts, file: named }) && *opts
                == self.pending() && named@ == file@,
    {
        match self.build() {
            Ok(opts) => Ok(
                VerificationRequest::Silicon { opts: Box::new(opts), file: file.to_string() },
            ),
            Err(e) => Err(ViperServerError::SiliconOpts(e)),
        }
    }
}

impl CarbonOptsBuilder {
    /// Sets the path of Z3 from what the search for it gave: the bytes that
    /// it wrote, as they are, or the reason why it could not be run. Nothing
    /// is set where the search failed or the bytes are no text.
    pub fn detected_z3(&mut self, output: core::result::Result<Vec<u8>, String>) -> (r: Result<
        &mut Self,
        ViperServerError,
    >)
        ensures
            match output {
                Ok(bytes) => if vstd::utf8::valid_utf8(bytes@) {
                    r matches Ok(ret) && (ret.pending().z3_exe matches Some(path) && path@
                        == vstd::utf8::decode_utf8(bytes@)) && ret.pending() == (CarbonOpts {
                        z3_exe: ret.pending().z3_exe,
                        ..old(self).pending()
                    }) && *final(self) == *final(ret)
                } else {
                    r matches Err(ViperServerError::InvalidUtf8 { .. }) && *final(self) == *old(
                        self,
                    )
                },
                Err(cause) => r matches Err(ViperServerError::Io { source }) && source == cause
                    && *final(self) == *old(self),
            },
    {
        match output {
            Ok(bytes) => match text_of(bytes) {
                Ok(path) => {
                    proof {
                        vstd::utf8::encode_utf8_decode_utf8(path@);
                    }
                    Ok(self.z3_exe(path.as_str()))
                },
                Err(source) => Err(ViperServerError::InvalidUtf8 { source }),
            },
            Err(cause) => Err(ViperServerError::Io { source: cause }),
        }
    }

    /// The request to verify `file` with Carbon and the options that were set.
    pub fn verify_file(&self, file: &str) -> (r: Result<VerificationRequest, ViperServerError>)
        ensures
            r matches Ok(VerificationRequest::Carbon { opts, file: named }) && *opts
                == self.pending() && named@ == file@,
    {
        match self.build() {
            Ok(opts) => Ok(
                VerificationRequest::Carbon { opts: Box::new(opts), file: file.to_string() },
            ),
            Err(e) => Err(ViperServerError::CarbonOpts(e)),
        }
    }
}

/// The job that the server made of a request.
#[derive(Debug, Clone, Copy, PartialEq, Eq, Structural)]
pub struct VerificationResponse {
    pub ast_id: u64,
    pub id: u64,
}

/// What is sent to the server for one request.
#[derive(Debug)]
pub struct Posting {
    /// Where it goes.
    pub url: String,
    /// The body, a JSON document.
    pub body: String,
}

/// The body of the request of type `ty` that carries `command`: the object
/// with the type under `type` and the command under `arg`.
pub open spec fn request_body(ty: Seq<char>, command: Seq<char>) -> Seq<char> {
    object_text(seq![("type"@, ty), ("arg"@, command)])
}

/// The path of the status stream of the job `id`.
pub open spec fn status_path(id: u64) -> Seq<char> {
    "verify/"@ + decimal(id as nat)
}

/// A client of a server that has said where it listens.
#[derive(Debug)]
pub struct Client {
    /// The supervisor of the server, which lives as long as the client does.
    pub server: ViperServer,
    base: url::Url,
}

impl Client {
    /// The supervisor of the server.
    pub closed spec fn supervisor(&self) -> ViperServer {
        self.server
    }

    /// The address of the server, as it is written out.
    pub closed spec fn address(&self) -> Seq<char> {
        url_text(self.base)
    }

    /// The address of the server.
    pub fn base(&self) -> (r: String)
        ensures
            r@ == self.address(),
    {
        url_string(&self.base)
    }

    /// Attaches a client to the server. `signal` is how the wait for the
    /// server's announcement ended: the address, or nothing where the
    /// server's output ended without one. The client is there once the
    /// server's address is known and is a URL. Where the server never
    /// announced one, the error holds the lines that `server` has captured,
    /// and so does its cause.
    pub fn new(server: ViperServer, signal: Option<String>) -> (r: Result<Client, ViperServerError>)
        ensures
            ({
                let state = settled(
                    server.readiness(),
                    match signal {
                        Some(address) => Some(address@),
                        None => None,
                    },
                );
                match answer(state) {
                    Some(address) => match parsed_url(address) {
                        Ok(base) => r matches Ok(client) && client.address() == base
                            && client.supervisor().readiness() == state
                            && client.supervisor().stdout_lines() == server.stdout_lines()
                            && client.supervisor().stderr_lines() == server.stderr_lines(),
                        Err(words) => r matches Err(ViperServerError::InvalidUrl { source })
                            && url_error_text(source) == words,
                    },
                    None => r matches Err(
                        ViperServerError::ConnectToServerFailed { stdout, stderr, source },
                    ) && stdout@ == stdout_report(server.stdout_lines()) && stderr@
                        == stderr_report(server.stderr_lines()) && (*source matches
                        ViperServerError::ServerDidNotReportPort { stdout: first, stderr: second }
                        && first@ == stdout@ && second@ == stderr@),
                }
            }),
    {
        let mut server = server;
        match server.online_at(signal) {
            Ok(address) => match parse_url(address.as_str()) {
                Ok(base) => Ok(Client { server, base }),
                Err(source) => Err(ViperServerError::InvalidUrl { source }),
            },
            Err(ViperServerError::ServerDidNotReportPort { stdout, stderr }) => Err(
                ViperServerError::ConnectToServerFailed {
                    stdout: stdout.clone(),
                    stderr: stderr.clone(),
                    source: Box::new(ViperServerError::ServerDidNotReportPort { stdout, stderr }),
                },
            ),
            Err(other) => Err(other),
        }
    }

    /// What to send to the server for the request `body`: where, and the
    /// document that states the type of the request and carries its command.
    pub fn post<R: ViperRequest>(&self, body: R) -> (r: Result<Posting, ViperServerError>)
        ensures
            match joined_url(self.address(), body.spec_url()) {
                Ok(url) => r matches Ok(posting) && posting.url@ == url && posting.body@
                    == request_body(body.spec_ty(), body.spec_command()),
                Err(words) => r matches Err(ViperServerError::InvalidUrl { source })
                    && url_error_text(source) == words,
            },
    {
        let url = match join_url(&self.base, body.url()) {
            Ok(url) => url_string(&url),
            Err(source) => {
                return Err(ViperServerError::InvalidUrl { source });
            },
        };
        let mut entries: Vec<(String, String)> = Vec::new();
        entries.push(("type".to_string(), body.ty().to_string()));
        entries.push(("arg".to_string(), body.command()));
        assert(entries@.map_values(|e: (String, String)| (e.0@, e.1@)) =~= seq![
            ("type"@, body.spec_ty()),
            ("arg"@, body.spec_command()),
        ]);
        Ok(Posting { url, body: write_object(&entries) })
    }

    /// What the server's answer to a request of the kind `R` decodes to. An
    /// answer that does not decode is handed back in the error.
    pub fn posted<R: ViperRequest>(answer: &str) -> (r: Result<R::Response, ViperServerError>)
        ensures
            match r {
                Ok(response) => R::spec_decoded(answer@, Ok(response)),
                Err(ViperServerError::ParseJson { json, source }) => json@ == answer@
                    && R::spec_decoded(answer@, Err(source)),
                Err(_) => false,
            },
    {
        match R::decode(answer) {
            Ok(response) => Ok(response),
            Err(source) => Err(ViperServerError::ParseJson { json: answer.to_string(), source }),
        }
    }

    /// Where the status stream of the job `v` is read.
    pub fn check_on_verification(&self, v: &VerificationResponse) -> (r: Result<
        String,
        ViperServerError,
    >)
        ensures
            match joined_url(self.address(), status_path(v.id)) {
                Ok(url) => r matches Ok(found) && found@ == url,
                Err(words) => r matches Err(ViperServerError::InvalidUrl { source })
                    && url_error_text(source) == words,
            },
    {
        let mut path = "verify/".to_string();
        let id = render_decimal(v.id);
        path.append(id.as_str());
        match join_url(&self.base, path.as_str()) {
            Ok(url) => Ok(url_string(&url)),
            Err(source) => Err(ViperServerError::InvalidUrl { source }),
        }
    }

    /// The status message that one line of the stream is. A line that is none
    /// is handed back in the error; the lines after it are not touched by
    /// that.
    pub fn status(line: &str) -> (r: Result<VerificationStatus, ViperServerError>)
        ensures
            match line_status(line@) {
                Ok(status) => r matches Ok(found) && found@ == status && found.wf(),
                Err(e) => r matches Err(ViperServerError::ParseJson { json, source }) && json@
                    == line@ && source@ == e,
            },
    {
        match decode_line(line) {
            Ok(status) => Ok(status),
            Err(source) => Err(ViperServerError::ParseJson { json: line.to_string(), source }),
        }
    }
}

/// What the status stream makes of one read: whether it has ended after the
/// read, and what it yields for the read. A read gives a line, or nothing
/// once the server has closed the connection.
pub open spec fn stream_step(ended: bool, read: Option<Seq<char>>) -> (
    bool,
    Option<Result<crate::verification::status::VerificationStatusView, DecodeErrorView>>,
) {
    if ended {
        (true, None)
    } else {
        match read {
            Some(line) => (false, Some(line_status(line))),
            None => (true, None),
        }
    }
}

/// What the status stream yields over `reads`, in order.
pub open spec fn stream(ended: bool, reads: Seq<Option<Seq<char>>>) -> Seq<
    Result<crate::verification::status::VerificationStatusView, DecodeErrorView>,
>
    decreases reads.len(),
{
    if reads.len() == 0 {
        Seq::empty()
    } else {
        let (next, out) = stream_step(ended, reads.first());
        match out {
            Some(item) => seq![item] + stream(next, reads.drop_first()),
            None => stream(next, reads.drop_first()),
        }
    }
}

/// A stream that has ended yields nothing more, whatever is read.
pub proof fn lemma_ended_stream_yields_nothing(reads: Seq<Option<Seq<char>>>)
    ensures
        stream(true, reads).len() == 0,
    decreases reads.len(),
{
    if reads.len() > 0 {
        lemma_ended_stream_yields_nothing(reads.drop_first());
    }
}

/// Until the server closes the connection the stream yields what each line
/// decodes to, in the order of the lines; a line that does not decode yields
/// its error and nothing else changes. With the close the stream ends, and
/// nothing that is read after it is yielded.
pub proof fn lemma_stream_yields_lines_until_close(
    lines: Seq<Seq<char>>,
    after: Seq<Option<Seq<char>>>,
)
    ensures
        stream(false, lines.map_values(|line: Seq<char>| Some(line)) + seq![None] + after)
            == lines.map_values(|line: Seq<char>| line_status(line)),
    decreases lines.len(),
{
    let reads = lines.map_values(|line: Seq<char>| Some(line)) + seq![None] + after;
    if lines.len() == 0 {
        assert(reads.first() == None::<Seq<char>>);
        lemma_ended_stream_yields_nothing(reads.drop_first());
        assert(stream(false, reads) =~= lines.map_values(|line: Seq<char>| line_status(line)));
    } else {
        let rest = lines.drop_first();
        lemma_stream_yields_lines_until_close(rest, after);
        assert(reads.first() == Some(lines.first()));
        assert(reads.drop_first() =~= rest.map_values(|line: Seq<char>| Some(line)) + seq![None]
            + after);
        assert(stream(false, reads) =~= lines.map_values(|line: Seq<char>| line_status(line)));
    }
}

/// The status stream of one job: a sequence that is read once, line by line,
/// and that ends when the server closes the connection.
#[derive(Debug)]
pub struct StatusStream {
    ended: bool,
}

impl StatusStream {
    /// Whether the stream has ended.
    pub closed spec fn ended(&self) -> bool {
        self.ended
    }

    /// A stream of which nothing has been read yet.
    pub fn new() -> (r: Self)
        ensures
            !r.ended(),
    {
        StatusStream { ended: false }
    }

    /// Takes the next read of the connection: a line, or nothing once the
    /// server has closed it. The result is what the stream yields for it: the
    /// message that the line is or the error of this line, and nothing from
    /// the close on.
    pub fn on_read(&mut self, read: Option<&str>) -> (r: Option<
        Result<VerificationStatus, ViperServerError>,
    >)
        ensures
            ({
                let step = stream_step(
                    old(self).ended(),
                    match read {
                        Some(line) => Some(line@),
                        None => None,
                    },
                );
                &&& final(self).ended() == step.0
                &&& match step.1 {
                    Some(Ok(status)) => r matches Some(Ok(found)) && found@ == status
                        && found.wf(),
                    Some(Err(e)) => r matches Some(
                        Err(ViperServerError::ParseJson { json, source }),
                    ) && read matches Some(line) && json@ == line@ && source@ == e,
                    None => r is None,
                }
            }),
    {
        if self.ended {
            return None;
        }
        match read {
            Some(line) => Some(Client::status(line)),
            None => {
                self.ended = true;
                None
            },
        }
    }
}

} // verus!
