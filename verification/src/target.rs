//! The service to wait for: a `host:port` pair or an HTTP(S) URL, and how the
//! command-line argument is told apart into one of the two.

use crate::text::{
    all_digits, chars_of, decimal_text, digits_value, is_digit, lemma_decimal_round_trip,
    lemma_decimal_text_digits, lemma_digits_value_prefix, to_decimal,
};
use vstd::prelude::*;
use vstd::string::{StrSliceExecFns, StringExecFns};

verus! {

/// What the tool waits on.
#[derive(Debug, Clone, PartialEq, Eq)]
pub enum Target {
    /// A TCP endpoint: host name or address, and port.
    HostPort(String, u16),
    /// An HTTP or HTTPS URL, kept as it was written.
    Url(String),
}

/// The mathematical content of a [`Target`].
pub enum TargetView {
    HostPort(Seq<char>, u16),
    Url(Seq<char>),
}

impl View for Target {
    type V = TargetView;

    open spec fn view(&self) -> TargetView {
        match self {
            Target::HostPort(host, port) => TargetView::HostPort(host@, *port),
            Target::Url(url) => TargetView::Url(url@),
        }
    }
}

/// Why a target string was rejected.
#[derive(Debug, Clone, PartialEq, Eq)]
pub enum TargetError {
    /// Neither a URL nor anything with a colon in it.
    InvalidFormat,
    /// Starts like a URL but is not a well-formed one; holds the whole string.
    InvalidUrl(String),
    /// What follows the last colon is no 16-bit port number; holds that part.
    InvalidPort(String),
    /// Nothing stands before the last colon.
    EmptyHost,
}

/// The mathematical content of a [`TargetError`].
pub enum TargetErrorView {
    InvalidFormat,
    InvalidUrl(Seq<char>),
    InvalidPort(Seq<char>),
    EmptyHost,
}

impl View for TargetError {
    type V = TargetErrorView;

    open spec fn view(&self) -> TargetErrorView {
        match self {
            TargetError::InvalidFormat => TargetErrorView::InvalidFormat,
            TargetError::InvalidUrl(text) => TargetErrorView::InvalidUrl(text@),
            TargetError::InvalidPort(text) => TargetErrorView::InvalidPort(text@),
            TargetError::EmptyHost => TargetErrorView::EmptyHost,
        }
    }
}

/// The content of a parse result, on either side.
pub open spec fn parsed_view(r: Result<Target, TargetError>) -> Result<
    TargetView,
    TargetErrorView,
> {
    match r {
        Ok(target) => Ok(target@),
        Err(error) => Err(error@),
    }
}

/// Whether `s` begins with `http://` or `https://`.
pub open spec fn has_url_scheme(s: Seq<char>) -> bool {
    "http://"@.is_prefix_of(s) || "https://"@.is_prefix_of(s)
}

/// Position of the last colon in `s`, if it has one.
pub open spec fn last_colon(s: Seq<char>) -> Option<int>
    decreases s.len(),
{
    if s.len() == 0 {
        None
    } else if s.last() == ':' {
        Some(s.len() - 1)
    } else {
        last_colon(s.drop_last())
    }
}

/// The digits of a port text: the text itself, less one leading plus sign.
pub open spec fn port_digits(s: Seq<char>) -> Seq<char> {
    if s.len() > 0 && s[0] == '+' {
        s.drop_first()
    } else {
        s
    }
}

/// The port that `s` denotes: an optional plus sign, then one or more digits
/// whose value fits in sixteen bits. Anything else denotes none.
pub open spec fn port_of(s: Seq<char>) -> Option<u16> {
    let digits = port_digits(s);
    if digits.len() > 0 && all_digits(digits) && digits_value(digits) <= u16::MAX {
        Some(digits_value(digits) as u16)
    } else {
        None
    }
}

/// How a string without URL scheme is read: host before the last colon, port
/// after it. The port is looked at first, then the host.
pub open spec fn host_port_of(s: Seq<char>) -> Result<TargetView, TargetErrorView> {
    match last_colon(s) {
        None => Err(TargetErrorView::InvalidFormat),
        Some(at) => {
            let host = s.subrange(0, at);
            let port_text = s.subrange(at + 1, s.len() as int);
            match port_of(port_text) {
                None => Err(TargetErrorView::InvalidPort(port_text)),
                Some(port) => if host.len() == 0 {
                    Err(TargetErrorView::EmptyHost)
                } else {
                    Ok(TargetView::HostPort(host, port))
                },
            }
        },
    }
}

/// How a target string is read, given whether it is a well-formed URL.
pub open spec fn target_of(s: Seq<char>, well_formed_url: bool) -> Result<
    TargetView,
    TargetErrorView,
> {
    if has_url_scheme(s) {
        if well_formed_url {
            Ok(TargetView::Url(s))
        } else {
            Err(TargetErrorView::InvalidUrl(s))
        }
    } else {
        host_port_of(s)
    }
}

/// The last colon is a colon with none after it, and there is none at all
/// exactly when there is no such position.
pub proof fn lemma_last_colon(s: Seq<char>)
    ensures
        match last_colon(s) {
            Some(at) => 0 <= at < s.len() && s[at] == ':' && forall|j: int|
                at < j < s.len() ==> s[j] != ':',
            None => forall|j: int| 0 <= j < s.len() ==> s[j] != ':',
        },
    decreases s.len(),
{
    if s.len() > 0 && s.last() != ':' {
        let front = s.drop_last();
        lemma_last_colon(front);
        assert forall|j: int| 0 <= j < front.len() implies front[j] == s[j] by {}
        match last_colon(front) {
            Some(at) => {
                assert forall|j: int| at < j < s.len() implies s[j] != ':' by {
                    if j < front.len() {
                        assert(front[j] != ':');
                    }
                }
            },
            None => {
                assert forall|j: int| 0 <= j < s.len() implies s[j] != ':' by {
                    if j < front.len() {
                        assert(front[j] != ':');
                    }
                }
            },
        }
    }
}

/// Whether `prefix` stands at the start of `chars`.
fn starts_with(chars: &Vec<char>, prefix: &str) -> (yes: bool)
    ensures
        yes == prefix@.is_prefix_of(chars@),
{
    let wanted = chars_of(prefix);
    if wanted.len() > chars.len() {
        return false;
    }
    let mut i: usize = 0;
    while i < wanted.len()
        invariant
            wanted@ == prefix@,
            i <= wanted.len() <= chars.len(),
            forall|j: int| 0 <= j < i ==> wanted[j] == chars[j],
        decreases wanted.len() - i,
    {
        if wanted[i] != chars[i] {
            return false;
        }
        i += 1;
    }
    true
}

/// Whether the string begins with `http://` or `https://`.
pub fn looks_like_url(target: &str) -> (yes: bool)
    ensures
        yes == has_url_scheme(target@),
{
    let chars = chars_of(target);
    starts_with(&chars, "http://") || starts_with(&chars, "https://")
}

/// Finds the last colon.
fn find_last_colon(chars: &Vec<char>) -> (found: Option<usize>)
    ensures
        match found {
            Some(at) => at < chars.len() && last_colon(chars@) == Some(at as int),
            None => last_colon(chars@) is None,
        },
{
    let mut i: usize = chars.len();
    while i > 0
        invariant
            i <= chars.len(),
            forall|j: int| i <= j < chars.len() ==> chars[j] != ':',
        decreases i,
    {
        i -= 1;
        if chars[i] == ':' {
            proof {
                lemma_last_colon(chars@);
            }
            return Some(i);
        }
    }
    proof {
        lemma_last_colon(chars@);
    }
    None
}

/// Reads a port number as the standard library reads a `u16`: an optional
/// plus sign, then decimal digits, nothing else, and no more than 65535.
pub fn parse_port(text: &str) -> (port: Option<u16>)
    ensures
        port == port_of(text@),
{
    let chars = chars_of(text);
    let n = chars.len();
    let start: usize = if n > 0 && chars[0] == '+' {
        1
    } else {
        0
    };
    let ghost digits = port_digits(text@);
    if start == n {
        return None;
    }
    let mut value: u32 = 0;
    let mut i: usize = start;
    while i < n
        invariant
            start <= i <= n,
            n == chars.len(),
            digits == port_digits(text@),
            digits == chars@.subrange(start as int, n as int),
            all_digits(digits.take(i - start)),
            value == digits_value(digits.take(i - start)),
            value <= u16::MAX,
        decreases n - i,
    {
        let c = chars[i];
        let ghost read = digits.take(i - start + 1);
        assert(read.drop_last() =~= digits.take(i - start));
        if c < '0' || c > '9' {
            assert(!is_digit(digits[i - start]));
            return None;
        }
        value = value * 10 + (c as u32 - '0' as u32);
        if value > 65535 {
            proof {
                lemma_digits_value_prefix(digits, i - start + 1);
            }
            return None;
        }
        i += 1;
    }
    assert(digits.take(n - start) =~= digits);
    Some(value as u16)
}

/// The verdict of `url::Url::parse` on a text: whether it returns `Ok`. What
/// the `url` crate takes for a well-formed absolute URL is not restated here.
pub uninterp spec fn url_well_formed(target: Seq<char>) -> bool;

/// Calls `url::Url::parse` and tells whether it returned `Ok`.
///
/// Believed, not proved: that this answer is [`url_well_formed`] of the text,
/// which is to say that it depends on the text alone. `Url::parse` parses
/// with the default options, that is without a base URL, an encoding override
/// or a callback, and hands every rejection back as an error value.
#[verifier::external_body]
fn url_parses(target: &str) -> (ok: bool)
    ensures
        ok == url_well_formed(target@),
{
    url::Url::parse(target).is_ok()
}

/// Tells a target string apart, given the URL parser's verdict on it. The
/// verdict is only consulted for strings that begin with a URL scheme.
pub fn target_from(target: &str, well_formed_url: bool) -> (r: Result<Target, TargetError>)
    ensures
        parsed_view(r) == target_of(target@, well_formed_url),
{
    let chars = chars_of(target);
    if starts_with(&chars, "http://") || starts_with(&chars, "https://") {
        if well_formed_url {
            Ok(Target::Url(String::from_str(target)))
        } else {
            Err(TargetError::InvalidUrl(String::from_str(target)))
        }
    } else {
        match find_last_colon(&chars) {
            None => Err(TargetError::InvalidFormat),
            Some(at) => {
                let port_text = target.substring_char(at + 1, chars.len());
                match parse_port(port_text) {
                    None => Err(TargetError::InvalidPort(String::from_str(port_text))),
                    Some(port) => if at == 0 {
                        Err(TargetError::EmptyHost)
                    } else {
                        let host = target.substring_char(0, at);
                        Ok(Target::HostPort(String::from_str(host), port))
                    },
                }
            },
        }
    }
}

/// Reads the command-line target: a URL when it begins with `http://` or
/// `https://`, otherwise host and port around the last colon.
pub fn parse_target(target: &str) -> (r: Result<Target, TargetError>)
    ensures
        parsed_view(r) == target_of(target@, url_well_formed(target@)),
        r is Ok ==> r->Ok_0@.well_formed(),
{
    let well_formed_url = looks_like_url(target) && url_parses(target);
    proof {
        lemma_parsed_target_is_well_formed(target@);
    }
    target_from(target, well_formed_url)
}

impl TargetView {
    /// Whether the target is one that a string is read as: a host that is
    /// not empty and does not begin with a URL scheme, or a well-formed URL
    /// that begins with one.
    pub open spec fn well_formed(self) -> bool {
        match self {
            TargetView::HostPort(host, _) => host.len() > 0 && !has_url_scheme(host),
            TargetView::Url(url) => has_url_scheme(url) && url_well_formed(url),
        }
    }

    /// How the target is named in messages: `host:port`, or the URL.
    pub open spec fn label(self) -> Seq<char> {
        match self {
            TargetView::HostPort(host, port) => host + ":"@ + decimal_text(port as nat),
            TargetView::Url(url) => url,
        }
    }
}

impl Target {
    /// How the target is named in messages: `host:port`, or the URL.
    pub fn label(&self) -> (text: String)
        ensures
            text@ == self@.label(),
    {
        match self {
            Target::HostPort(host, port) => {
                let mut text = String::from_str(host.as_str());
                text.append(":");
                let port_text = to_decimal(*port as u64);
                text.append(port_text.as_str());
                text
            },
            Target::Url(url) => String::from_str(url.as_str()),
        }
    }
}

impl TargetErrorView {
    /// The rejection in words.
    pub open spec fn message(self) -> Seq<char> {
        match self {
            TargetErrorView::InvalidFormat =>
                "Target must be in format 'host:port' or 'http(s)://...'"@,
            TargetErrorView::InvalidUrl(text) => "Invalid URL format: "@ + text,
            TargetErrorView::InvalidPort(text) => "Invalid port number: "@ + text,
            TargetErrorView::EmptyHost => "Host cannot be empty"@,
        }
    }
}

impl TargetError {
    /// The rejection in words.
    pub fn message(&self) -> (text: String)
        ensures
            text@ == self@.message(),
    {
        match self {
            TargetError::InvalidFormat => String::from_str(
                "Target must be in format 'host:port' or 'http(s)://...'",
            ),
            TargetError::InvalidUrl(target) => {
                let mut text = String::from_str("Invalid URL format: ");
                text.append(target.as_str());
                text
            },
            TargetError::InvalidPort(port_text) => {
                let mut text = String::from_str("Invalid port number: ");
                text.append(port_text.as_str());
                text
            },
            TargetError::EmptyHost => String::from_str("Host cannot be empty"),
        }
    }
}

/// A text that denotes a port holds no colon.
pub proof fn lemma_port_text_has_no_colon(port_text: Seq<char>)
    requires
        port_of(port_text) is Some,
    ensures
        forall|j: int| 0 <= j < port_text.len() ==> port_text[j] != ':',
{
    let digits = port_digits(port_text);
    assert forall|j: int| 0 <= j < port_text.len() implies port_text[j] != ':' by {
        if digits.len() == port_text.len() {
            assert(is_digit(digits[j]));
        } else if j > 0 {
            assert(is_digit(digits[j - 1]));
        }
    }
}

/// A string made of a host, a colon and a port text is read as that host and
/// that port, whenever the host is not empty and does not itself begin with a
/// URL scheme. The host may hold colons of its own.
pub proof fn lemma_host_and_port_accepted(
    host: Seq<char>,
    port_text: Seq<char>,
    well_formed_url: bool,
)
    requires
        host.len() > 0,
        !has_url_scheme(host),
        port_of(port_text) is Some,
    ensures
        target_of(host + ":"@ + port_text, well_formed_url) == Ok::<TargetView, TargetErrorView>(
            TargetView::HostPort(host, port_of(port_text).unwrap()),
        ),
{
    reveal_strlit(":");
    reveal_strlit("http://");
    reveal_strlit("https://");
    let s = host + ":"@ + port_text;
    let at = host.len() as int;
    lemma_port_text_has_no_colon(port_text);
    lemma_last_colon(s);
    assert(s[at] == ':');
    assert forall|j: int| at < j < s.len() implies s[j] != ':' by {
        assert(s[j] == port_text[j - at - 1]);
    }
    assert(last_colon(s) == Some(at));
    assert(s.subrange(0, at) =~= host);
    assert(s.subrange(at + 1, s.len() as int) =~= port_text);
    assert(!has_url_scheme(s)) by {
        let digits = port_digits(port_text);
        if "http://"@.is_prefix_of(s) {
            let p = "http://"@;
            assert(p =~= s.subrange(0, 7));
            if at >= 7 {
                assert(p =~= host.subrange(0, 7));
            } else {
                assert(s[at] == p[at]);
                assert(at == 4);
                assert(s[5] == p[5]);
                assert(port_text[0] == '/');
                assert(is_digit(digits[0]));
            }
        }
        if "https://"@.is_prefix_of(s) {
            let p = "https://"@;
            assert(p =~= s.subrange(0, 8));
            if at >= 8 {
                assert(p =~= host.subrange(0, 8));
            } else {
                assert(s[at] == p[at]);
                assert(at == 5);
                assert(s[6] == p[6]);
                assert(port_text[0] == '/');
                assert(is_digit(digits[0]));
            }
        }
    }
}

/// A string that begins with `http://` or `https://` is read as a URL and
/// kept whole when it is well formed, and rejected as a URL when it is not.
pub proof fn lemma_url_accepted(s: Seq<char>, well_formed_url: bool)
    requires
        has_url_scheme(s),
    ensures
        well_formed_url ==> target_of(s, well_formed_url) == Ok::<TargetView, TargetErrorView>(
            TargetView::Url(s),
        ),
        !well_formed_url ==> target_of(s, well_formed_url) == Err::<TargetView, TargetErrorView>(
            TargetErrorView::InvalidUrl(s),
        ),
{
}

/// A string without any colon is rejected for its format.
pub proof fn lemma_no_colon_rejected(s: Seq<char>, well_formed_url: bool)
    requires
        forall|j: int| 0 <= j < s.len() ==> s[j] != ':',
    ensures
        target_of(s, well_formed_url) == Err::<TargetView, TargetErrorView>(
            TargetErrorView::InvalidFormat,
        ),
{
    reveal_strlit("http://");
    reveal_strlit("https://");
    lemma_last_colon(s);
    if "http://"@.is_prefix_of(s) {
        assert(s.subrange(0, 7)[4] == ':');
    }
    if "https://"@.is_prefix_of(s) {
        assert(s.subrange(0, 8)[5] == ':');
    }
}

/// Every target that a string is read as is well formed.
pub proof fn lemma_parsed_target_is_well_formed(s: Seq<char>)
    ensures
        match target_of(s, url_well_formed(s)) {
            Ok(target) => target.well_formed(),
            Err(_) => true,
        },
{
    if !has_url_scheme(s) {
        if let Some(at) = last_colon(s) {
            lemma_last_colon(s);
            let host = s.subrange(0, at);
            if "http://"@.is_prefix_of(host) {
                assert("http://"@ =~= s.subrange(0, "http://"@.len() as int));
            }
            if "https://"@.is_prefix_of(host) {
                assert("https://"@ =~= s.subrange(0, "https://"@.len() as int));
            }
        }
    }
}

/// Reading the label of a well-formed target gives the target back.
pub proof fn lemma_label_round_trip(target: TargetView)
    requires
        target.well_formed(),
    ensures
        target_of(target.label(), url_well_formed(target.label())) == Ok::<
            TargetView,
            TargetErrorView,
        >(target),
{
    let well_formed_url = url_well_formed(target.label());
    match target {
        TargetView::HostPort(host, port) => {
            let numeral = decimal_text(port as nat);
            lemma_decimal_text_digits(port as nat);
            lemma_decimal_round_trip(port as nat);
            assert(numeral[0] != '+') by {
                assert(is_digit(numeral[0]));
            }
            assert(port_of(numeral) == Some(port));
            lemma_host_and_port_accepted(host, numeral, well_formed_url);
        },
        TargetView::Url(url) => {},
    }
}

} // verus!
