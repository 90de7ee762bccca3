//! Command-line argument parsing for the screenshot utility.
//!
//! The surface is small: `-q`/`--quiet` and `-v`/`--verbose` are accepted but
//! inert (each just earns a "not supported yet" notice), `-u ADDR`/`--url
//! ADDR` overrides the target address, and any other token earns an
//! unrecognized-argument or unrecognized-positional warning while parsing
//! proceeds. A `-u`/`--url` with no following token is the one fatal case: it
//! must abort the process before any browser work starts.
//!
//! [`parse_spec`] is the mathematical account of that walk over the argument
//! list; [`parse_args`] is proved to return exactly what it says. The lemmas
//! at the bottom state the parser's laws: a `-u ADDR` pair sets the address,
//! an unrecognized token only adds a warning, and a dangling `-u` is fatal.

use vstd::prelude::*;
use vstd::string::StrSliceExecFns;
use vstd::string::StringExecFns;

verus! {

/// The target address used when no `-u`/`--url` option is supplied: the local
/// development server.
pub open spec fn spec_default_url() -> Seq<char> {
    "http://localhost:5173"@
}

/// The default target address.
pub fn default_url() -> (u: String)
    ensures
        u@ == spec_default_url(),
{
    String::from_str("http://localhost:5173")
}

/// The mathematical shape of a warning the parser emits while it keeps going.
pub enum NoticeView {
    /// `-q`/`--quiet` was seen; quiet mode is not supported yet.
    Quiet,
    /// `-v`/`--verbose` was seen; verbose mode is not supported yet.
    Verbose,
    /// A token that looks like a flag but is not one of the recognized flags.
    UnknownFlag(Seq<char>),
    /// A token that does not look like a flag and has no meaning here.
    UnknownPositional(Seq<char>),
}

/// A warning the parser emits while it keeps going. None of these alters the
/// target address or stops the run.
#[derive(Clone, Debug, PartialEq, Eq)]
pub enum Notice {
    /// `-q`/`--quiet` was seen; quiet mode is not supported yet.
    Quiet,
    /// `-v`/`--verbose` was seen; verbose mode is not supported yet.
    Verbose,
    /// A token that looks like a flag but is not one of the recognized flags.
    UnknownFlag(String),
    /// A token that does not look like a flag and has no meaning here.
    UnknownPositional(String),
}

impl View for Notice {
    type V = NoticeView;

    open spec fn view(&self) -> NoticeView {
        match self {
            Notice::Quiet => NoticeView::Quiet,
            Notice::Verbose => NoticeView::Verbose,
            Notice::UnknownFlag(a) => NoticeView::UnknownFlag(a@),
            Notice::UnknownPositional(a) => NoticeView::UnknownPositional(a@),
        }
    }
}

impl DeepView for Notice {
    type V = NoticeView;

    open spec fn deep_view(&self) -> NoticeView {
        self.view()
    }
}

/// What a run of the utility starts from: the target address to render and
/// the warnings to print before the startup line.
pub struct Config {
    /// The address the page will be directed to.
    pub url: String,
    /// The warnings the parser emitted, in the order it met their tokens.
    pub notices: Vec<Notice>,
}

/// What argument parsing came to: either a usable configuration, or the one
/// fatal case — a `-u`/`--url` with no following token — carrying the
/// warnings emitted before it.
pub enum ParseResult {
    /// Parsing consumed every token; the run may proceed.
    Parsed(Config),
    /// The last token was `-u`/`--url`: the process must abort at once,
    /// before any browser work.
    MissingUrlValue(Vec<Notice>),
}

/// The mathematical shape of a parse: the address and warnings of a completed
/// walk, or the warnings gathered before a dangling `-u`/`--url`.
pub enum ParseView {
    /// A completed walk: the final target address, then the warnings in
    /// order.
    Parsed(Seq<char>, Seq<NoticeView>),
    /// A dangling `-u`/`--url`: the warnings gathered before it.
    Fatal(Seq<NoticeView>),
}

impl View for ParseResult {
    type V = ParseView;

    open spec fn view(&self) -> ParseView {
        match self {
            ParseResult::Parsed(c) => ParseView::Parsed(c.url@, c.notices.deep_view()),
            ParseResult::MissingUrlValue(ns) => ParseView::Fatal(ns.deep_view()),
        }
    }
}

/// Whether a token selects the target-address option.
pub open spec fn is_url_flag(t: Seq<char>) -> bool {
    t == "-u"@ || t == "--url"@
}

/// The warning an unrecognized token earns: flag-shaped tokens (a leading
/// `-`) are reported as unknown arguments, anything else as an unknown
/// positional argument.
pub open spec fn spec_unknown_notice(t: Seq<char>) -> NoticeView {
    if t.len() > 0 && t[0] == '-' {
        NoticeView::UnknownFlag(t)
    } else {
        NoticeView::UnknownPositional(t)
    }
}

/// The parser's walk over the argument list, one token at a time, carrying
/// the address chosen so far and the warnings emitted so far. A recognized
/// option token consumes the following token as its value, whatever that
/// token looks like; a `-u`/`--url` with nothing after it ends the walk
/// fatally.
pub open spec fn parse_spec(args: Seq<Seq<char>>, url: Seq<char>, notices: Seq<NoticeView>) -> ParseView
    decreases args.len(),
{
    if args.len() == 0 {
        ParseView::Parsed(url, notices)
    } else {
        let t = args[0];
        if t == "-q"@ || t == "--quiet"@ {
            parse_spec(args.skip(1), url, notices.push(NoticeView::Quiet))
        } else if t == "-v"@ || t == "--verbose"@ {
            parse_spec(args.skip(1), url, notices.push(NoticeView::Verbose))
        } else if is_url_flag(t) {
            if args.len() == 1 {
                ParseView::Fatal(notices)
            } else {
                parse_spec(args.skip(2), args[1], notices)
            }
        } else {
            parse_spec(args.skip(1), url, notices.push(spec_unknown_notice(t)))
        }
    }
}

fn str_eq(a: &str, b: &str) -> (r: bool)
    ensures
        r == (a@ == b@),
{
    let sa = String::from_str(a);
    let sb = String::from_str(b);
    sa == sb
}

fn starts_with_dash(s: &str) -> (r: bool)
    ensures
        r == (s@.len() > 0 && s@[0] == '-'),
{
    if s.is_empty() {
        false
    } else {
        s.get_char(0) == '-'
    }
}

/// Parse the utility's arguments (the process arguments with the binary name
/// already dropped). Returns exactly what [`parse_spec`] assigns to the list,
/// starting from the default address and no warnings: the address set by the
/// last `-u`/`--url` pair (or the default if there was none), the warnings in
/// order, and the fatal case if and only if the list ends in a `-u`/`--url`
/// that is left without a value.
pub fn parse_args(args: &Vec<String>) -> (r: ParseResult)
    ensures
        r@ == parse_spec(args.deep_view(), spec_default_url(), Seq::<NoticeView>::empty()),
{
    let ghost all = args.deep_view();
    let mut url = default_url();
    let mut notices: Vec<Notice> = Vec::new();
    let mut i: usize = 0;
    proof {
        assert(all.skip(0) =~= all);
        assert(notices.deep_view() =~= Seq::<NoticeView>::empty());
    }
    while i < args.len()
        invariant
            i <= args.len(),
            all == args.deep_view(),
            all.len() == args.len(),
            parse_spec(all, spec_default_url(), Seq::<NoticeView>::empty()) == parse_spec(
                all.skip(i as int),
                url@,
                notices.deep_view(),
            ),
        decreases args.len() - i,
    {
        let ghost rest = all.skip(i as int);
        let ghost old_notices = notices.deep_view();
        proof {
            assert(rest[0] == all[i as int]);
            assert(rest.skip(1) =~= all.skip(i as int + 1));
        }
        let arg = &args[i];
        if str_eq(arg.as_str(), "-q") || str_eq(arg.as_str(), "--quiet") {
            notices.push(Notice::Quiet);
            proof {
                assert(notices.deep_view() =~= old_notices.push(NoticeView::Quiet));
            }
            i = i + 1;
        } else if str_eq(arg.as_str(), "-v") || str_eq(arg.as_str(), "--verbose") {
            notices.push(Notice::Verbose);
            proof {
                assert(notices.deep_view() =~= old_notices.push(NoticeView::Verbose));
            }
            i = i + 1;
        } else if str_eq(arg.as_str(), "-u") || str_eq(arg.as_str(), "--url") {
            if i + 1 < args.len() {
                proof {
                    assert(rest[1] == all[i as int + 1]);
                    assert(rest.skip(2) =~= all.skip(i as int + 2));
                }
                url = args[i + 1].clone();
                i = i + 2;
            } else {
                proof {
                    assert(rest.len() == 1);
                }
                return ParseResult::MissingUrlValue(notices);
            }
        } else if starts_with_dash(arg.as_str()) {
            notices.push(Notice::UnknownFlag(arg.clone()));
            proof {
                assert(notices.deep_view() =~= old_notices.push(spec_unknown_notice(rest[0])));
            }
            i = i + 1;
        } else {
            notices.push(Notice::UnknownPositional(arg.clone()));
            proof {
                assert(notices.deep_view() =~= old_notices.push(spec_unknown_notice(rest[0])));
            }
            i = i + 1;
        }
    }
    proof {
        assert(all.skip(i as int) =~= Seq::<Seq<char>>::empty());
    }
    ParseResult::Parsed(Config { url, notices })
}

/// The text a warning is printed with.
pub open spec fn spec_notice_message(n: NoticeView) -> Seq<char> {
    match n {
        NoticeView::Quiet => "Quiet mode is not supported yet."@,
        NoticeView::Verbose => "Verbose mode is not supported yet."@,
        NoticeView::UnknownFlag(a) => "Unkown argument "@ + a,
        NoticeView::UnknownPositional(a) => "Unkown positional argument "@ + a,
    }
}

impl Notice {
    /// The line this warning is printed as.
    pub fn message(&self) -> (m: String)
        ensures
            m@ == spec_notice_message(self@),
    {
        match self {
            Notice::Quiet => String::from_str("Quiet mode is not supported yet."),
            Notice::Verbose => String::from_str("Verbose mode is not supported yet."),
            Notice::UnknownFlag(a) => {
                let mut m = String::from_str("Unkown argument ");
                m.append(a.as_str());
                m
            },
            Notice::UnknownPositional(a) => {
                let mut m = String::from_str("Unkown positional argument ");
                m.append(a.as_str());
                m
            },
        }
    }
}

/// The fatal line printed when `-u`/`--url` is left without a value.
pub open spec fn spec_missing_value_message() -> Seq<char> {
    "No value specified for parameter --config."@
}

/// The message of the one fatal abort: a `-u`/`--url` with no value.
pub fn missing_value_message() -> (m: &'static str)
    ensures
        m@ == spec_missing_value_message(),
{
    "No value specified for parameter --config."
}

/// The startup line announcing which address will be rendered.
pub open spec fn spec_startup_message(url: Seq<char>) -> Seq<char> {
    "taking screenshot from: "@ + url
}

/// The startup line for the given target address.
pub fn startup_message(url: &str) -> (m: String)
    ensures
        m@ == spec_startup_message(url@),
{
    let mut m = String::from_str("taking screenshot from: ");
    m.append(url);
    m
}

/// Law of composition: once a prefix of the argument list parses to a
/// completed walk, the rest of the list is parsed from exactly the address
/// and warnings that prefix came to.
pub proof fn lemma_parse_extends(
    front: Seq<Seq<char>>,
    rest: Seq<Seq<char>>,
    url: Seq<char>,
    notices: Seq<NoticeView>,
)
    requires
        parse_spec(front, url, notices) is Parsed,
    ensures
        parse_spec(front + rest, url, notices) == parse_spec(
            rest,
            parse_spec(front, url, notices)->Parsed_0,
            parse_spec(front, url, notices)->Parsed_1,
        ),
    decreases front.len(),
{
    if front.len() == 0 {
        assert(front + rest =~= rest);
    } else {
        let t = front[0];
        assert((front + rest)[0] == t);
        if t == "-q"@ || t == "--quiet"@ {
            assert((front + rest).skip(1) =~= front.skip(1) + rest);
            lemma_parse_extends(front.skip(1), rest, url, notices.push(NoticeView::Quiet));
        } else if t == "-v"@ || t == "--verbose"@ {
            assert((front + rest).skip(1) =~= front.skip(1) + rest);
            lemma_parse_extends(front.skip(1), rest, url, notices.push(NoticeView::Verbose));
        } else if is_url_flag(t) {
            assert(front.len() >= 2);
            assert((front + rest)[1] == front[1]);
            assert((front + rest).skip(2) =~= front.skip(2) + rest);
            lemma_parse_extends(front.skip(2), rest, front[1], notices);
        } else {
            assert((front + rest).skip(1) =~= front.skip(1) + rest);
            lemma_parse_extends(front.skip(1), rest, url, notices.push(spec_unknown_notice(t)));
        }
    }
}

/// Law of the unrecognized token: a token that is none of the six recognized
/// flags neither alters the address nor stops the walk — it only appends its
/// warning, and parsing proceeds over the rest as if the token had not been
/// there.
pub proof fn lemma_unknown_token_ignored(
    tok: Seq<char>,
    rest: Seq<Seq<char>>,
    url: Seq<char>,
    notices: Seq<NoticeView>,
)
    requires
        tok != "-q"@,
        tok != "--quiet"@,
        tok != "-v"@,
        tok != "--verbose"@,
        tok != "-u"@,
        tok != "--url"@,
    ensures
        parse_spec(seq![tok] + rest, url, notices) == parse_spec(
            rest,
            url,
            notices.push(spec_unknown_notice(tok)),
        ),
{
    assert((seq![tok] + rest)[0] == tok);
    assert((seq![tok] + rest).skip(1) =~= rest);
}

proof fn lemma_url_flag_is_no_mode_flag(flag: Seq<char>)
    requires
        is_url_flag(flag),
    ensures
        flag != "-q"@,
        flag != "--quiet"@,
        flag != "-v"@,
        flag != "--verbose"@,
{
    reveal_strlit("-q");
    reveal_strlit("--quiet");
    reveal_strlit("-v");
    reveal_strlit("--verbose");
    reveal_strlit("-u");
    reveal_strlit("--url");
    assert("-u"@[1] != "-q"@[1]);
    assert("-u"@[1] != "-v"@[1]);
    assert("-u"@.len() != "--quiet"@.len());
    assert("-u"@.len() != "--verbose"@.len());
    assert("--url"@.len() != "-q"@.len());
    assert("--url"@.len() != "-v"@.len());
    assert("--url"@.len() != "--quiet"@.len());
    assert("--url"@.len() != "--verbose"@.len());
}

/// Law of the address option: a `-u ADDR` or `--url ADDR` pair makes `ADDR`
/// the address the rest of the walk starts from, whatever was chosen before.
pub proof fn lemma_url_flag_sets_address(
    flag: Seq<char>,
    addr: Seq<char>,
    rest: Seq<Seq<char>>,
    url: Seq<char>,
    notices: Seq<NoticeView>,
)
    requires
        is_url_flag(flag),
    ensures
        parse_spec(seq![flag, addr] + rest, url, notices) == parse_spec(rest, addr, notices),
{
    lemma_url_flag_is_no_mode_flag(flag);
    assert((seq![flag, addr] + rest)[0] == flag);
    assert((seq![flag, addr] + rest)[1] == addr);
    assert((seq![flag, addr] + rest).skip(2) =~= rest);
}

/// Law of the dangling option: an argument list ending in a bare `-u`/`--url`
/// is fatal, whatever address was chosen before it, carrying exactly the
/// warnings gathered so far.
pub proof fn lemma_dangling_url_flag(flag: Seq<char>, url: Seq<char>, notices: Seq<NoticeView>)
    requires
        is_url_flag(flag),
    ensures
        parse_spec(seq![flag], url, notices) == ParseView::Fatal(notices),
{
    lemma_url_flag_is_no_mode_flag(flag);
    assert(seq![flag].len() == 1);
}

} // verus!
