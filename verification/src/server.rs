//! The supervisor of the server process: the command line that starts it, the
//! scan of its output for the address it listens on, and the latch through
//! which that address reaches whoever waits for it.

use crate::error::ViperServerError;
use crate::opts::{ViperServerOpts, ViperServerOptsBuilder};
use crate::text::{
    chars_of, find, is_white_space, led, lemma_trimmed_is_bare, occurs_at, render_led, search,
    trim_bounds, trimmed,
};
use vstd::prelude::*;
use vstd::string::*;

verus! {

/// How much the server logs.
#[derive(Debug, Clone, Copy, PartialEq, Eq, PartialOrd, Ord, Hash, Structural)]
pub enum ViperServerLogLevel {
    All,
    Trace,
    Debug,
    Info,
    Warn,
    Error,
    Off,
}

impl ViperServerLogLevel {
    /// The level as the server's command line names it.
    pub open spec fn name(self) -> Seq<char> {
        match self {
            ViperServerLogLevel::All => "ALL"@,
            ViperServerLogLevel::Trace => "TRACE"@,
            ViperServerLogLevel::Debug => "DEBUG"@,
            ViperServerLogLevel::Info => "INFO"@,
            ViperServerLogLevel::Warn => "WARN"@,
            ViperServerLogLevel::Error => "ERROR"@,
            ViperServerLogLevel::Off => "OFF"@,
        }
    }

    /// The level as the server's command line names it.
    pub fn to_string(&self) -> (r: String)
        ensures
            r@ == self.name(),
    {
        match self {
            ViperServerLogLevel::All => "ALL".to_string(),
            ViperServerLogLevel::Trace => "TRACE".to_string(),
            ViperServerLogLevel::Debug => "DEBUG".to_string(),
            ViperServerLogLevel::Info => "INFO".to_string(),
            ViperServerLogLevel::Warn => "WARN".to_string(),
            ViperServerLogLevel::Error => "ERROR".to_string(),
            ViperServerLogLevel::Off => "OFF".to_string(),
        }
    }
}

/// The protocol that the server speaks.
#[derive(Debug, Clone, Copy, PartialEq, Eq, PartialOrd, Ord, Hash, Structural)]
pub enum ServerMode {
    Lsp,
    Http,
}

impl Default for ServerMode {
    fn default() -> (r: Self)
        ensures
            r == ServerMode::Http,
    {
        ServerMode::Http
    }
}

impl ServerMode {
    /// The protocol as the server's command line names it.
    pub open spec fn name(self) -> Seq<char> {
        match self {
            ServerMode::Lsp => "LSP"@,
            ServerMode::Http => "HTTP"@,
        }
    }

    /// The protocol as the server's command line names it.
    pub fn to_string(&self) -> (r: String)
        ensures
            r@ == self.name(),
    {
        match self {
            ServerMode::Lsp => "LSP".to_string(),
            ServerMode::Http => "HTTP".to_string(),
        }
    }
}

/// The name under which the server announces itself.
pub open spec fn product() -> Seq<char> {
    "ViperServer"@
}

/// The words with which a server of the name `product` announces its address.
pub open spec fn marker(product: Seq<char>) -> Seq<char> {
    product + " online at "@
}

/// The address that `line` announces for `product`: what follows the first
/// occurrence of the marker, without the white space around it.
pub open spec fn announced(product: Seq<char>, line: Seq<char>) -> Option<Seq<char>> {
    match find(line, marker(product)) {
        Some(at) => Some(trimmed(line.skip(at + marker(product).len()))),
        None => None,
    }
}

/// An announced address neither starts nor ends with white space.
pub proof fn lemma_announced_is_bare(product: Seq<char>, line: Seq<char>)
    ensures
        match announced(product, line) {
            Some(address) => address.len() > 0 ==> !is_white_space(address.first())
                && !is_white_space(address.last()),
            None => true,
        },
{
    match find(line, marker(product)) {
        Some(at) => lemma_trimmed_is_bare(line.skip(at + marker(product).len())),
        None => {},
    }
}

/// The address that `line` announces for `product`, where it holds the marker.
pub fn announced_address(product: &str, line: &str) -> (r: Option<String>)
    ensures
        match announced(product@, line@) {
            Some(address) => r matches Some(found) && found@ == address,
            None => r is None,
        },
{
    let text = chars_of(line);
    let mut words = product.to_string();
    words.append(" online at ");
    let pattern = chars_of(words.as_str());
    match search(&text, &pattern) {
        Some(at) => {
            assert(at + pattern.len() <= text.len());
            let (start, end) = trim_bounds(&text, at + pattern.len());
            Some(line.substring_char(start, end).to_string())
        },
        None => None,
    }
}

/// The scan of the server's standard output. It reads every line, and
/// announces an address once: with the first line that holds the marker.
#[derive(Debug)]
pub struct StdoutScanner {
    product: String,
    fired: bool,
}

/// What the scan makes of one line: whether it has announced an address after
/// the line, and the address that it announces with the line.
pub open spec fn scan_step(product: Seq<char>, fired: bool, line: Seq<char>) -> (
    bool,
    Option<Seq<char>>,
) {
    if fired {
        (true, None)
    } else {
        match announced(product, line) {
            Some(address) => (true, Some(address)),
            None => (false, None),
        }
    }
}

/// The addresses that the scan announces over `lines`, in order.
pub open spec fn scan(product: Seq<char>, fired: bool, lines: Seq<Seq<char>>) -> Seq<Seq<char>>
    decreases lines.len(),
{
    if lines.len() == 0 {
        Seq::empty()
    } else {
        let (next, out) = scan_step(product, fired, lines.first());
        match out {
            Some(address) => seq![address] + scan(product, next, lines.drop_first()),
            None => scan(product, next, lines.drop_first()),
        }
    }
}

/// A scan that has announced an address announces no other.
pub proof fn lemma_scan_is_silent_once_fired(product: Seq<char>, lines: Seq<Seq<char>>)
    ensures
        scan(product, true, lines).len() == 0,
    decreases lines.len(),
{
    if lines.len() > 0 {
        lemma_scan_is_silent_once_fired(product, lines.drop_first());
    }
}

/// Over any output of the server the scan announces at most one address.
pub proof fn lemma_scan_fires_at_most_once(product: Seq<char>, lines: Seq<Seq<char>>)
    ensures
        scan(product, false, lines).len() <= 1,
    decreases lines.len(),
{
    if lines.len() > 0 {
        lemma_scan_is_silent_once_fired(product, lines.drop_first());
        lemma_scan_fires_at_most_once(product, lines.drop_first());
    }
}

impl StdoutScanner {
    /// The name under which the scanned server announces itself.
    pub closed spec fn product(&self) -> Seq<char> {
        self.product@
    }

    /// Whether the scan has announced an address.
    pub closed spec fn fired(&self) -> bool {
        self.fired
    }

    /// A scan for ViperServer that has read nothing yet.
    pub fn new() -> (r: Self)
        ensures
            r.product() == product(),
            !r.fired(),
    {
        StdoutScanner { product: "ViperServer".to_string(), fired: false }
    }

    /// A scan that has read nothing yet, for a server that announces itself
    /// as `product`.
    pub fn for_product(product: &str) -> (r: Self)
        ensures
            r.product() == product@,
            !r.fired(),
    {
        StdoutScanner { product: product.to_string(), fired: false }
    }

    /// Reads the next line of the server's standard output. The result is the
    /// address to announce, if this line is the first that holds the marker.
    pub fn on_line(&mut self, line: &str) -> (r: Option<String>)
        ensures
            final(self).product() == old(self).product(),
            final(self).fired() == scan_step(old(self).product(), old(self).fired(), line@).0,
            match scan_step(old(self).product(), old(self).fired(), line@).1 {
                Some(address) => r matches Some(found) && found@ == address,
                None => r is None,
            },
    {
        if self.fired {
            return None;
        }
        let found = announced_address(self.product.as_str(), line);
        if found.is_some() {
            self.fired = true;
        }
        found
    }
}

/// The latch through which the address reaches whoever asks for it.
#[derive(Debug)]
pub enum OnlineAt {
    /// Nothing has been announced yet, and the server's output is still open.
    Waiting,
    /// The server listens at this address.
    Got(String),
    /// The server's output ended without an announcement.
    Errored,
}

/// What the latch stands for.
pub enum OnlineAtView {
    Waiting,
    Got(Seq<char>),
    Errored,
}

impl View for OnlineAt {
    type V = OnlineAtView;

    open spec fn view(&self) -> OnlineAtView {
        match *self {
            OnlineAt::Waiting => OnlineAtView::Waiting,
            OnlineAt::Got(address) => OnlineAtView::Got(address@),
            OnlineAt::Errored => OnlineAtView::Errored,
        }
    }
}

/// The latch after a wait that ended with `signal`: the address that was
/// announced, or nothing where the scan ended without one. Only a latch that
/// still waits takes the signal.
pub open spec fn settled(state: OnlineAtView, signal: Option<Seq<char>>) -> OnlineAtView {
    match state {
        OnlineAtView::Waiting => match signal {
            Some(address) => OnlineAtView::Got(address),
            None => OnlineAtView::Errored,
        },
        settled => settled,
    }
}

/// What a latch that has settled answers: the address, or nothing where none
/// was announced.
pub open spec fn answer(state: OnlineAtView) -> Option<Seq<char>> {
    match state {
        OnlineAtView::Got(address) => Some(address),
        _ => None,
    }
}

/// Once the latch has settled, every later wait leaves it as it is, whatever
/// signal comes with it: all who ask get the same answer.
pub proof fn lemma_readiness_settles_once(
    state: OnlineAtView,
    first: Option<Seq<char>>,
    later: Option<Seq<char>>,
)
    ensures
        settled(settled(state, first), later) == settled(state, first),
        !(settled(state, first) is Waiting),
{
}

/// The text in which the captured lines of the standard output are handed
/// on: a heading, and every line on a line of its own.
pub open spec fn stdout_report(stdout: Seq<Seq<char>>) -> Seq<char> {
    "stdout:"@ + led("\n"@, stdout)
}

/// The text in which the captured lines of the standard error are handed on:
/// a heading, and every line on a line of its own.
pub open spec fn stderr_report(stderr: Seq<Seq<char>>) -> Seq<char> {
    "stderr:"@ + led("\n"@, stderr)
}

/// Whether `line` stands somewhere in `text`.
pub open spec fn holds_line(text: Seq<char>, line: Seq<char>) -> bool {
    exists|at: int| occurs_at(text, line, at)
}

/// Lines that are written out with a lead in front of each stand in what is
/// written.
proof fn lemma_led_holds_each(lead: Seq<char>, lines: Seq<Seq<char>>, i: int)
    requires
        0 <= i < lines.len(),
    ensures
        holds_line(led(lead, lines), lines[i]),
    decreases lines.len(),
{
    let all = led(lead, lines);
    let before = led(lead, lines.drop_last());
    if i == lines.len() - 1 {
        let at = (before.len() + lead.len()) as int;
        assert(all.subrange(at, at + lines[i].len()) =~= lines[i]);
        assert(occurs_at(all, lines[i], at));
    } else {
        lemma_led_holds_each(lead, lines.drop_last(), i);
        let at = choose|at: int| occurs_at(before, lines.drop_last()[i], at);
        assert(all.subrange(at, at + lines[i].len()) =~= before.subrange(
            at,
            at + lines[i].len(),
        ));
        assert(occurs_at(all, lines[i], at));
    }
}

/// A line that stands in a text stands in it with anything before it.
proof fn lemma_holds_line_after(head: Seq<char>, text: Seq<char>, line: Seq<char>)
    requires
        holds_line(text, line),
    ensures
        holds_line(head + text, line),
{
    let at = choose|at: int| occurs_at(text, line, at);
    let whole = head + text;
    assert(whole.subrange(head.len() + at, head.len() + at + line.len()) =~= text.subrange(
        at,
        at + line.len(),
    ));
    assert(occurs_at(whole, line, head.len() + at));
}

/// The two texts hold every line that was captured: the first those of the
/// standard output, the second those of the standard error.
pub proof fn lemma_reports_hold_every_line(stdout: Seq<Seq<char>>, stderr: Seq<Seq<char>>)
    ensures
        forall|i: int|
            0 <= i < stdout.len() ==> holds_line(stdout_report(stdout), #[trigger] stdout[i]),
        forall|i: int|
            0 <= i < stderr.len() ==> holds_line(stderr_report(stderr), #[trigger] stderr[i]),
{
    assert forall|i: int| 0 <= i < stdout.len() implies holds_line(
        stdout_report(stdout),
        #[trigger] stdout[i],
    ) by {
        lemma_led_holds_each("\n"@, stdout, i);
        lemma_holds_line_after("stdout:"@, led("\n"@, stdout), stdout[i]);
    }
    assert forall|i: int| 0 <= i < stderr.len() implies holds_line(
        stderr_report(stderr),
        #[trigger] stderr[i],
    ) by {
        lemma_led_holds_each("\n"@, stderr, i);
        lemma_holds_line_after("stderr:"@, led("\n"@, stderr), stderr[i]);
    }
}

/// The supervisor of one server process, as far as the decisions of this crate
/// go: the latch, and the lines of the server's two outputs that were captured
/// and that nobody has taken yet.
#[derive(Debug)]
pub struct ViperServer {
    online_at: OnlineAt,
    stdout: Vec<String>,
    stderr: Vec<String>,
}

/// The command line that starts the server from the archive `viper_server_jar`
/// with the options `opts`.
pub open spec fn launch(viper_server_jar: Seq<char>, opts: ViperServerOpts) -> Seq<Seq<char>> {
    seq!["java"@, "-Xss128m"@, "-Xmx4g"@, "-jar"@, viper_server_jar] + opts.args()
}

impl ViperServerOptsBuilder {
    /// The command line that starts the server with the options that were
    /// set.
    fn spawn(&self, viper_server_jar: &str) -> (r: Result<Vec<String>, ViperServerError>)
        ensures
            r matches Ok(command) && command.deep_view() == launch(
                viper_server_jar@,
                self.pending(),
            ),
    {
        match self.build() {
            Ok(opts) => Ok(ViperServer::command(viper_server_jar, &opts)),
            Err(e) => Err(ViperServerError::BuildServer(e)),
        }
    }

    /// Sets the protocol to HTTP, and gives the command line that starts the
    /// server with the options that were set.
    pub fn spawn_http(&mut self, viper_server_jar: &str) -> (r: Result<
        Vec<String>,
        ViperServerError,
    >)
        ensures
            final(self).pending().server_mode matches Some(mode) && mode@ == "HTTP"@,
            final(self).pending() == (ViperServerOpts {
                server_mode: final(self).pending().server_mode,
                ..old(self).pending()
            }),
            r matches Ok(command) && command.deep_view() == launch(
                viper_server_jar@,
                final(self).pending(),
            ),
    {
        self.server_mode("HTTP");
        self.spawn(viper_server_jar)
    }

    /// Sets the protocol to LSP, and gives the command line that starts the
    /// server with the options that were set.
    pub fn spawn_lsp(&mut self, viper_server_jar: &str) -> (r: Result<
        Vec<String>,
        ViperServerError,
    >)
        ensures
            final(self).pending().server_mode matches Some(mode) && mode@ == "LSP"@,
            final(self).pending() == (ViperServerOpts {
                server_mode: final(self).pending().server_mode,
                ..old(self).pending()
            }),
            r matches Ok(command) && command.deep_view() == launch(
                viper_server_jar@,
                final(self).pending(),
            ),
    {
        self.server_mode("LSP");
        self.spawn(viper_server_jar)
    }
}

impl ViperServer {
    /// What the latch stands for.
    pub closed spec fn readiness(&self) -> OnlineAtView {
        self.online_at@
    }

    /// The lines of the standard output that were captured and not taken,
    /// oldest first.
    pub closed spec fn stdout_lines(&self) -> Seq<Seq<char>> {
        self.stdout.deep_view()
    }

    /// The lines of the standard error that were captured and not taken,
    /// oldest first.
    pub closed spec fn stderr_lines(&self) -> Seq<Seq<char>> {
        self.stderr.deep_view()
    }

    /// A builder for the options of the server, with nothing set.
    pub fn builder() -> (r: ViperServerOptsBuilder)
        ensures
            r.pending() == ViperServerOpts::unset(),
    {
        ViperServerOptsBuilder::default()
    }

    /// The command line that starts the server: the Java launcher with its
    /// two memory settings, the archive, and the arguments of `opts`.
    pub fn command(viper_server_jar: &str, opts: &ViperServerOpts) -> (r: Vec<String>)
        ensures
            r.deep_view() == launch(viper_server_jar@, *opts),
    {
        let mut command: Vec<String> = Vec::new();
        command.push("java".to_string());
        command.push("-Xss128m".to_string());
        command.push("-Xmx4g".to_string());
        command.push("-jar".to_string());
        command.push(viper_server_jar.to_string());
        assert(command.deep_view() =~= seq![
            "java"@,
            "-Xss128m"@,
            "-Xmx4g"@,
            "-jar"@,
            viper_server_jar@,
        ]);
        proof {
            opts.lemma_applied_appends(command.deep_view());
        }
        opts.apply(&mut command);
        command
    }

    /// The supervisor of a process that `started` says was started, or the
    /// error that tells why it was not: there is a supervisor only for a
    /// process that runs. A new supervisor waits for the announcement and has
    /// captured nothing.
    pub fn spawn(viper_server_jar: &str, started: core::result::Result<(), String>) -> (r: Result<
        ViperServer,
        ViperServerError,
    >)
        ensures
            match started {
                Ok(_) => r matches Ok(server) && server.readiness() is Waiting
                    && server.stdout_lines().len() == 0 && server.stderr_lines().len() == 0,
                Err(cause) => r matches Err(
                    ViperServerError::SpawnServer { source, viper_server_jar: jar },
                ) && source == cause && jar@ == viper_server_jar@,
            },
    {
        match started {
            Ok(_) => {
                let server = ViperServer {
                    online_at: OnlineAt::Waiting,
                    stdout: Vec::new(),
                    stderr: Vec::new(),
                };
                assert(server.stdout.deep_view() =~= Seq::empty());
                assert(server.stderr.deep_view() =~= Seq::empty());
                Ok(server)
            },
            Err(cause) => Err(
                ViperServerError::SpawnServer {
                    source: cause,
                    viper_server_jar: viper_server_jar.to_string(),
                },
            ),
        }
    }

    /// The latch.
    pub fn latch(&self) -> (r: &OnlineAt)
        ensures
            r@ == self.readiness(),
    {
        &self.online_at
    }

    /// Takes in a line that the server wrote to its standard output.
    pub fn capture_stdout(&mut self, line: String)
        ensures
            final(self).stdout_lines() == old(self).stdout_lines().push(line@),
            final(self).stderr_lines() == old(self).stderr_lines(),
            final(self).readiness() == old(self).readiness(),
    {
        self.stdout.push(line);
        assert(self.stdout.deep_view() =~= old(self).stdout.deep_view().push(line@));
    }

    /// Takes in a line that the server wrote to its standard error.
    pub fn capture_stderr(&mut self, line: String)
        ensures
            final(self).stderr_lines() == old(self).stderr_lines().push(line@),
            final(self).stdout_lines() == old(self).stdout_lines(),
            final(self).readiness() == old(self).readiness(),
    {
        self.stderr.push(line);
        assert(self.stderr.deep_view() =~= old(self).stderr.deep_view().push(line@));
    }

    /// Hands out the captured lines of the standard output, oldest first, and
    /// keeps none of them.
    pub fn take_stdout(&mut self) -> (r: Vec<String>)
        ensures
            r.deep_view() == old(self).stdout_lines(),
            final(self).stdout_lines().len() == 0,
            final(self).stderr_lines() == old(self).stderr_lines(),
            final(self).readiness() == old(self).readiness(),
    {
        let mut taken: Vec<String> = Vec::new();
        core::mem::swap(&mut taken, &mut self.stdout);
        assert(self.stdout.deep_view() =~= Seq::empty());
        taken
    }

    /// Hands out the captured lines of the standard error, oldest first, and
    /// keeps none of them.
    pub fn take_stderr(&mut self) -> (r: Vec<String>)
        ensures
            r.deep_view() == old(self).stderr_lines(),
            final(self).stderr_lines().len() == 0,
            final(self).stdout_lines() == old(self).stdout_lines(),
            final(self).readiness() == old(self).readiness(),
    {
        let mut taken: Vec<String> = Vec::new();
        core::mem::swap(&mut taken, &mut self.stderr);
        assert(self.stderr.deep_view() =~= Seq::empty());
        taken
    }

    /// The error of a server that did not say where it listens, with the
    /// lines that were captured until now.
    fn did_not_report(&self) -> (r: ViperServerError)
        ensures
            r matches ViperServerError::ServerDidNotReportPort { stdout, stderr } && stdout@
                == stdout_report(self.stdout_lines()) && stderr@ == stderr_report(
                self.stderr_lines(),
            ),
    {
        let mut stdout = "stdout:".to_string();
        let lines = render_led("\n", &self.stdout);
        stdout.append(lines.as_str());
        let mut stderr = "stderr:".to_string();
        let errors = render_led("\n", &self.stderr);
        stderr.append(errors.as_str());
        ViperServerError::ServerDidNotReportPort { stdout, stderr }
    }

    /// The address at which the server listens. `signal` is how the wait for
    /// the announcement ended: the address, or nothing where the server's
    /// output ended without one. The first call settles the latch with it;
    /// every later call answers as the first did, whatever `signal` holds.
    /// Where there is no address, the error holds every line that was
    /// captured until this call.
    pub fn online_at(&mut self, signal: Option<String>) -> (r: Result<String, ViperServerError>)
        ensures
            final(self).readiness() == settled(
                old(self).readiness(),
                match signal {
                    Some(address) => Some(address@),
                    None => None,
                },
            ),
            final(self).stdout_lines() == old(self).stdout_lines(),
            final(self).stderr_lines() == old(self).stderr_lines(),
            match answer(final(self).readiness()) {
                Some(address) => r matches Ok(found) && found@ == address,
                None => r matches Err(ViperServerError::ServerDidNotReportPort { stdout, stderr })
                    && stdout@ == stdout_report(old(self).stdout_lines()) && stderr@
                    == stderr_report(old(self).stderr_lines()),
            },
    {
        match &self.online_at {
            OnlineAt::Waiting => {},
            OnlineAt::Got(address) => {
                return Ok(address.clone());
            },
            OnlineAt::Errored => {
                return Err(self.did_not_report());
            },
        }
        match signal {
            Some(address) => {
                self.online_at = OnlineAt::Got(address.clone());
                Ok(address)
            },
            None => {
                self.online_at = OnlineAt::Errored;
                Err(self.did_not_report())
            },
        }
    }
}

} // verus!
