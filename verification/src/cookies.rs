//! Cookies as `android.webkit.CookieManager` takes and gives them.

use vstd::prelude::*;

use crate::text;

verus! {

/// The seconds since the Unix epoch that an HTTP date stands for, by
/// `httpdate::parse_http_date`; none where it is no HTTP date.
pub uninterp spec fn http_date(value: Seq<char>) -> Option<u64>;

/// `httpdate::parse_http_date`, as seconds since the Unix epoch. No date that it
/// accepts lies before it.
#[verifier::external_body]
fn parse_http_date(value: &str) -> (seconds: Option<u64>)
    ensures
        seconds == http_date(value@),
{
    let time = httpdate::parse_http_date(value).ok()?;
    time.duration_since(std::time::UNIX_EPOCH).ok().map(|d| d.as_secs())
}

/// `std::time::SystemTime::elapsed` of the Unix epoch, as seconds; none where the
/// clock stands before it. Nothing is claimed of what the clock shows.
#[verifier::external_body]
fn clock_seconds() -> (seconds: Option<u64>) {
    std::time::UNIX_EPOCH.elapsed().ok().map(|d| d.as_secs())
}

/// A cookie as a `Set-Cookie` value states it. An expiry of zero marks a session
/// cookie.
#[derive(Debug, PartialEq, Eq)]
pub struct ParsedSetCookie {
    pub name: String,
    pub value: String,
    pub domain: String,
    pub path: String,
    pub secure: bool,
    pub http_only: bool,
    pub expires_epoch_s: i64,
}

/// What a `ParsedSetCookie` holds.
#[verifier::ext_equal]
pub struct Cookie {
    pub name: Seq<char>,
    pub value: Seq<char>,
    pub domain: Seq<char>,
    pub path: Seq<char>,
    pub secure: bool,
    pub http_only: bool,
    pub expires_epoch_s: i64,
}

impl View for ParsedSetCookie {
    type V = Cookie;

    open spec fn view(&self) -> Cookie {
        Cookie {
            name: self.name@,
            value: self.value@,
            domain: self.domain@,
            path: self.path@,
            secure: self.secure,
            http_only: self.http_only,
            expires_epoch_s: self.expires_epoch_s,
        }
    }
}

/// The address that a cookie is kept for, and the domain that it then belongs to
/// where it names none.
#[derive(Debug, PartialEq, Eq)]
pub struct CookieUrlFixup {
    pub url: String,
    pub implied_domain: Option<String>,
}

/// Whether a character may occur in a host name.
pub open spec fn is_host_char(c: char) -> bool {
    text::is_digit(c) || 'a' <= c <= 'z' || 'A' <= c <= 'Z' || c == '.' || c == '-' || c == '_'
}

/// Whether a text is a host name: not empty, of letters, digits, dots, hyphens and
/// underscores, and without a dot at either end.
pub open spec fn is_host(s: Seq<char>) -> bool {
    s.len() > 0 && s[0] != '.' && s.last() != '.' && forall|i: int|
        0 <= i < s.len() ==> is_host_char(#[trigger] s[i])
}

/// Whether a character ends a plain address: a space or an ASCII control
/// character.
pub open spec fn is_break(c: char) -> bool {
    c as u32 <= 0x20 || c as u32 == 0x7F
}

/// Whether a text holds no space and no ASCII control character.
pub open spec fn is_unbroken(s: Seq<char>) -> bool {
    forall|i: int| 0 <= i < s.len() ==> !is_break(#[trigger] s[i])
}

/// Whether every character is an ASCII digit.
pub open spec fn only_digits(s: Seq<char>) -> bool {
    forall|i: int| 0 <= i < s.len() ==> text::is_digit(#[trigger] s[i])
}

/// What stands before the path of an address without a scheme.
pub open spec fn authority(input: Seq<char>) -> Seq<char> {
    text::before(input, '/')
}

/// The path of an address without a scheme, with its slash.
pub open spec fn path_part(input: Seq<char>) -> Seq<char> {
    input.skip(text::find(input, '/') as int)
}

/// Whether the authority begins with a dot that more follows.
pub open spec fn has_leading_dot(input: Seq<char>) -> bool {
    authority(input).len() > 1 && authority(input)[0] == '.'
}

/// The authority without its leading dot.
pub open spec fn host_port(input: Seq<char>) -> Seq<char> {
    if has_leading_dot(input) {
        authority(input).skip(1)
    } else {
        authority(input)
    }
}

/// Where the port of an authority begins: the last colon, where something stands
/// before it and digits alone after it.
pub open spec fn port_at(hp: Seq<char>) -> Option<int> {
    match text::find_last(hp, ':') {
        Some(at) => if at > 0 && only_digits(hp.skip(at + 1)) {
            Some(at)
        } else {
            None
        },
        None => None,
    }
}

/// The host of an authority.
pub open spec fn host_of(hp: Seq<char>) -> Seq<char> {
    match port_at(hp) {
        Some(at) => hp.take(at),
        None => hp,
    }
}

/// Whether an address is completed: it has no scheme, a proper host, and a path
/// without breaks.
pub open spec fn is_completed(input: Seq<char>) -> bool {
    !text::occurs(input, "://"@) && input.len() > 0 && is_host(host_of(host_port(input)))
        && is_unbroken(path_part(input))
}

/// The completed address.
pub open spec fn completed_url(input: Seq<char>) -> Seq<char> {
    let hp = host_port(input);
    let secure = port_at(hp) is Some && hp.skip(port_at(hp)->0 + 1) == "443"@;
    let path = if path_part(input).len() == 0 {
        "/"@
    } else {
        path_part(input)
    };
    (if secure {
        "https://"@
    } else {
        "http://"@
    }) + hp + path
}

/// The address that a cookie is kept for.
pub open spec fn fixed_url(input: Seq<char>) -> Seq<char> {
    if is_completed(input) {
        completed_url(input)
    } else {
        input
    }
}

/// The domain that a completed address implies by its leading dot.
pub open spec fn implied_domain(input: Seq<char>) -> Option<Seq<char>> {
    if is_completed(input) && has_leading_dot(input) {
        Some("."@ + host_of(host_port(input)))
    } else {
        None
    }
}

fn all_digits_from(chars: &[char], from: usize) -> (b: bool)
    requires
        from <= chars@.len(),
    ensures
        b == only_digits(chars@.skip(from as int)),
{
    let mut i: usize = from;
    while i < chars.len()
        invariant
            from <= i <= chars@.len(),
            forall|j: int| from <= j < i ==> text::is_digit(#[trigger] chars@[j]),
        decreases chars@.len() - i,
    {
        if !('0' <= chars[i] && chars[i] <= '9') {
            assert(chars@.skip(from as int)[i - from] == chars@[i as int]);
            return false;
        }
        i += 1;
    }
    assert forall|j: int| 0 <= j < chars@.skip(from as int).len() implies text::is_digit(
        #[trigger] chars@.skip(from as int)[j],
    ) by {
        assert(chars@[from + j] == chars@.skip(from as int)[j]);
    }
    true
}

fn check_host(chars: &[char]) -> (b: bool)
    ensures
        b == is_host(chars@),
{
    let n: usize = chars.len();
    if n == 0 || chars[0] == '.' || chars[n - 1] == '.' {
        return false;
    }
    let mut i: usize = 0;
    while i < n
        invariant
            i <= n,
            n == chars@.len(),
            forall|j: int| 0 <= j < i ==> is_host_char(#[trigger] chars@[j]),
        decreases n - i,
    {
        let c: char = chars[i];
        let fits = ('0' <= c && c <= '9') || ('a' <= c && c <= 'z') || ('A' <= c && c <= 'Z') || c
            == '.' || c == '-' || c == '_';
        if !fits {
            assert(!is_host_char(chars@[i as int]));
            return false;
        }
        i += 1;
    }
    true
}

fn check_unbroken(chars: &[char]) -> (b: bool)
    ensures
        b == is_unbroken(chars@),
{
    let mut i: usize = 0;
    while i < chars.len()
        invariant
            i <= chars@.len(),
            forall|j: int| 0 <= j < i ==> !is_break(#[trigger] chars@[j]),
        decreases chars@.len() - i,
    {
        let code: u32 = chars[i] as u32;
        if code <= 0x20 || code == 0x7F {
            assert(is_break(chars@[i as int]));
            return false;
        }
        i += 1;
    }
    true
}

/// Completes an address as `CookieManager` does: a bare host, with a port and a
/// path if it has them, gets the scheme and the path that are missing, and a
/// leading dot becomes an implied domain. Any other address is kept as it is.
pub fn fixup_webview_cookie_url(input: &str) -> (fixup: CookieUrlFixup)
    ensures
        fixup.url@ == fixed_url(input@),
        crate::resources::optional_text(fixup.implied_domain) == implied_domain(input@),
{
    let chars = text::chars_of(input);
    let scheme_mark = text::chars_of("://");
    if text::contains(&chars, &scheme_mark) || chars.len() == 0 {
        return CookieUrlFixup { url: input.to_owned(), implied_domain: None };
    }
    assert(chars@.skip(0) =~= chars@);
    let slash: usize = text::position(&chars, '/', 0);
    let suffix = text::part(&chars, slash, chars.len());
    assert(suffix@ =~= path_part(input@));
    let leading_dot = slash > 1 && chars[0] == '.';
    let from: usize = if leading_dot {
        1
    } else {
        0
    };
    let hp = text::part(&chars, from, slash);
    assert(authority(input@) =~= chars@.take(slash as int));
    assert(hp@ =~= host_port(input@));
    let colon: Option<usize> = match text::last_position(&hp, ':') {
        Some(at) => {
            if at > 0 && all_digits_from(&hp, at + 1) {
                Some(at)
            } else {
                None
            }
        },
        None => None,
    };
    let host = match colon {
        Some(at) => text::part(&hp, 0, at),
        None => text::part(&hp, 0, hp.len()),
    };
    assert(host@ =~= host_of(hp@));
    if !check_host(&host) || !check_unbroken(&suffix) {
        return CookieUrlFixup { url: input.to_owned(), implied_domain: None };
    }
    let secure = match colon {
        Some(at) => {
            let port = text::part(&hp, at + 1, hp.len());
            assert(port@ =~= hp@.skip(at + 1));
            let https_port = text::chars_of("443");
            text::same(&port, &https_port)
        },
        None => false,
    };
    let mut url = if secure {
        "https://".to_owned()
    } else {
        "http://".to_owned()
    };
    url.append(text::string_of(&hp).as_str());
    if suffix.len() == 0 {
        url.append("/");
    } else {
        url.append(text::string_of(&suffix).as_str());
    }
    let implied_domain = if leading_dot {
        let mut domain = ".".to_owned();
        domain.append(text::string_of(&host).as_str());
        Some(domain)
    } else {
        None
    };
    CookieUrlFixup { url, implied_domain }
}

/// The expiry that a number or a date stands for, the number first. The epoch
/// itself is told apart from a session cookie by minus one.
pub open spec fn expiry(number: Option<i64>, date: Option<u64>) -> Option<i64> {
    let epoch = match number {
        Some(n) => Some(n),
        None => match date {
            Some(d) => Some(
                if d <= i64::MAX {
                    d as i64
                } else {
                    i64::MAX
                },
            ),
            None => None,
        },
    };
    match epoch {
        Some(e) => Some(
            if e == 0 {
                (-1) as i64
            } else {
                e
            },
        ),
        None => None,
    }
}

/// The expiry that a number or a date stands for, the number first.
pub fn expiry_epoch_s(number: Option<i64>, date: Option<u64>) -> (epoch: Option<i64>)
    ensures
        epoch == expiry(number, date),
        number == Some(0i64) ==> epoch == Some(-1i64),
        number is Some && number->0 != 0 ==> epoch == number,
        number is None && date == Some(0u64) ==> epoch == Some(-1i64),
        number is None && date is Some && 0 < date->0 <= i64::MAX ==> epoch is Some && epoch->0
            == date->0,
        number is None && date is Some && date->0 > i64::MAX ==> epoch == Some(i64::MAX),
        number is None && date is None ==> epoch is None,
{
    let epoch: i64 = match number {
        Some(n) => n,
        None => match date {
            Some(d) => {
                if d <= i64::MAX as u64 {
                    d as i64
                } else {
                    i64::MAX
                }
            },
            None => {
                return None;
            },
        },
    };
    Some(
        if epoch == 0 {
            -1
        } else {
            epoch
        },
    )
}

/// The expiry that the value of an `Expires` attribute states: a number of
/// seconds since the epoch, or an HTTP date.
pub fn parse_cookie_expiry_epoch_s(value: &str) -> (epoch: Option<i64>)
    ensures
        epoch == expiry(text::i64_of(value@), http_date(value@)),
{
    let chars = text::chars_of(value);
    let number = text::parse_i64(&chars);
    if number.is_some() {
        return expiry_epoch_s(number, None);
    }
    expiry_epoch_s(None, parse_http_date(value))
}

/// The sum of two numbers, cut off at the ends of the range.
pub open spec fn saturated_sum(a: i64, b: i64) -> i64 {
    if a + b > i64::MAX {
        i64::MAX
    } else if a + b < i64::MIN {
        i64::MIN
    } else {
        (a + b) as i64
    }
}

/// What stands before an equals sign, without white space around it; all of the
/// text where there is none.
pub open spec fn key_part(s: Seq<char>) -> Seq<char> {
    if text::has(s, '=') {
        text::trimmed(text::before(s, '='))
    } else {
        s
    }
}

/// What stands after an equals sign, without white space around it.
pub open spec fn value_part(s: Seq<char>) -> Seq<char> {
    if text::has(s, '=') {
        text::trimmed(text::after(s, '='))
    } else {
        Seq::empty()
    }
}

/// A cookie under construction, and whether a lifetime was stated for it.
#[verifier::ext_equal]
pub struct Draft {
    pub cookie: Cookie,
    pub has_max_age: bool,
}

/// What one attribute makes of a cookie. A lifetime counts from `now`, and once
/// one was stated an expiry no longer counts.
pub open spec fn with_attribute(draft: Draft, attr: Seq<char>, now: i64) -> Draft {
    let a = text::trimmed(attr);
    let key = key_part(a);
    let v = value_part(a);
    let c = draft.cookie;
    if a.len() == 0 {
        draft
    } else if text::equal_ignoring_case(key, "domain"@) {
        Draft { cookie: Cookie { domain: v, ..c }, ..draft }
    } else if text::equal_ignoring_case(key, "path"@) {
        Draft { cookie: Cookie { path: v, ..c }, ..draft }
    } else if text::equal_ignoring_case(key, "secure"@) {
        Draft { cookie: Cookie { secure: true, ..c }, ..draft }
    } else if text::equal_ignoring_case(key, "httponly"@) {
        Draft { cookie: Cookie { http_only: true, ..c }, ..draft }
    } else if text::equal_ignoring_case(key, "max-age"@) {
        match text::i64_of(v) {
            Some(secs) => Draft {
                cookie: Cookie { expires_epoch_s: saturated_sum(now, secs), ..c },
                has_max_age: true,
            },
            None => draft,
        }
    } else if text::equal_ignoring_case(key, "expires"@) && !draft.has_max_age {
        match expiry(text::i64_of(v), http_date(v)) {
            Some(epoch) => Draft { cookie: Cookie { expires_epoch_s: epoch, ..c }, ..draft },
            None => draft,
        }
    } else {
        draft
    }
}

/// What the first `n` attributes make of a cookie.
pub open spec fn with_attributes(draft: Draft, attrs: Seq<Seq<char>>, n: nat, now: i64) -> Draft
    decreases n,
{
    if n == 0 {
        draft
    } else {
        with_attribute(with_attributes(draft, attrs, (n - 1) as nat, now), attrs[n - 1], now)
    }
}

/// The cookie that a `Set-Cookie` value states: a name and a value, then
/// attributes, all separated by semicolons.
pub open spec fn cookie_of(value: Seq<char>, now: i64) -> Cookie {
    let parts = text::parts(value, ';');
    let first = text::trimmed(parts[0]);
    let bare = Cookie {
        name: key_part(first),
        value: value_part(first),
        domain: Seq::empty(),
        path: Seq::empty(),
        secure: false,
        http_only: false,
        expires_epoch_s: 0,
    };
    with_attributes(
        Draft { cookie: bare, has_max_age: false },
        parts.skip(1),
        (parts.len() - 1) as nat,
        now,
    ).cookie
}

fn split_key_value(s: &[char]) -> (pair: (Vec<char>, Vec<char>))
    ensures
        pair.0@ == key_part(s@),
        pair.1@ == value_part(s@),
{
    assert(s@.skip(0) =~= s@);
    let at: usize = text::position(s, '=', 0);
    if at == s.len() {
        let all = text::part(s, 0, s.len());
        let none: Vec<char> = Vec::new();
        assert(all@ =~= s@);
        assert(none@ =~= Seq::<char>::empty());
        return (all, none);
    }
    let before = text::part(s, 0, at);
    let after = text::part(s, at + 1, s.len());
    assert(before@ =~= text::before(s@, '='));
    assert(after@ =~= text::after(s@, '='));
    (text::trim(&before), text::trim(&after))
}

fn key_is(key: &[char], name: &str) -> (b: bool)
    ensures
        b == text::equal_ignoring_case(key@, name@),
{
    let name = text::chars_of(name);
    text::same_ignoring_case(key, &name)
}

fn add_saturating(a: i64, b: i64) -> (sum: i64)
    ensures
        sum == saturated_sum(a, b),
{
    match a.checked_add(b) {
        Some(sum) => sum,
        None => {
            if b > 0 {
                i64::MAX
            } else {
                i64::MIN
            }
        },
    }
}

/// Adds one attribute to a cookie and returns whether a lifetime has been stated.
fn apply_attribute(cookie: &mut ParsedSetCookie, attr: &[char], has_max_age: bool, now: i64) -> (has:
    bool)
    ensures
        (Draft { cookie: final(cookie)@, has_max_age: has }) == with_attribute(
            Draft { cookie: old(cookie)@, has_max_age },
            attr@,
            now,
        ),
{
    let ghost before = Draft { cookie: cookie@, has_max_age };
    let attr = text::trim(attr);
    if attr.len() == 0 {
        return has_max_age;
    }
    let (key, v) = split_key_value(&attr);
    if key_is(&key, "domain") {
        cookie.domain = text::string_of(&v);
    } else if key_is(&key, "path") {
        cookie.path = text::string_of(&v);
    } else if key_is(&key, "secure") {
        cookie.secure = true;
    } else if key_is(&key, "httponly") {
        cookie.http_only = true;
    } else if key_is(&key, "max-age") {
        if let Some(secs) = text::parse_i64(&v) {
            cookie.expires_epoch_s = add_saturating(now, secs);
            return true;
        }
    } else if key_is(&key, "expires") && !has_max_age {
        let v = text::string_of(&v);
        if let Some(epoch) = parse_cookie_expiry_epoch_s(v.as_str()) {
            cookie.expires_epoch_s = epoch;
        }
    }
    has_max_age
}

/// The cookie that a `Set-Cookie` value states, at a given time.
pub fn parse_set_cookie_at(value: &str, now_epoch_s: i64) -> (cookie: ParsedSetCookie)
    ensures
        cookie@ == cookie_of(value@, now_epoch_s),
{
    let chars = text::chars_of(value);
    let parts = text::split(&chars, ';');
    let ghost all = text::parts(value@, ';');
    assert(all.len() >= 1);
    let first = text::trim(&parts[0]);
    let (name, val) = split_key_value(&first);
    let mut cookie = ParsedSetCookie {
        name: text::string_of(&name),
        value: text::string_of(&val),
        domain: String::new(),
        path: String::new(),
        secure: false,
        http_only: false,
        expires_epoch_s: 0,
    };
    let mut has_max_age: bool = false;
    let ghost start = Draft {
        cookie: Cookie {
            name: key_part(text::trimmed(all[0])),
            value: value_part(text::trimmed(all[0])),
            domain: Seq::empty(),
            path: Seq::empty(),
            secure: false,
            http_only: false,
            expires_epoch_s: 0,
        },
        has_max_age: false,
    };
    assert(cookie@ =~= start.cookie);
    let mut i: usize = 1;
    while i < parts.len()
        invariant
            1 <= i <= parts@.len(),
            parts@.len() == all.len(),
            forall|j: int| 0 <= j < parts@.len() ==> (#[trigger] parts@[j])@ == all[j],
            (Draft { cookie: cookie@, has_max_age }) == with_attributes(
                start,
                all.skip(1),
                (i - 1) as nat,
                now_epoch_s,
            ),
        decreases parts@.len() - i,
    {
        assert(all.skip(1)[i - 1] == all[i as int]);
        has_max_age = apply_attribute(&mut cookie, &parts[i], has_max_age, now_epoch_s);
        i += 1;
    }
    cookie
}

/// The time that a reading of the clock stands for: the epoch where the clock is
/// before it, and the largest number where it is beyond the range.
pub fn epoch_seconds(reading: Option<u64>) -> (now: i64)
    ensures
        now == (match reading {
            Some(seconds) => if seconds <= i64::MAX {
                seconds as int
            } else {
                i64::MAX as int
            },
            None => 0,
        }),
{
    match reading {
        Some(seconds) => {
            if seconds <= i64::MAX as u64 {
                seconds as i64
            } else {
                i64::MAX
            }
        },
        None => 0,
    }
}

/// The cookie that a `Set-Cookie` value states now, whatever the clock shows.
pub fn parse_set_cookie(value: &str) -> (cookie: ParsedSetCookie)
    ensures
        exists|now: i64| now >= 0 && cookie@ == #[trigger] cookie_of(value@, now),
{
    let now: i64 = epoch_seconds(clock_seconds());
    parse_set_cookie_at(value, now)
}

/// A cookie with the domain that its address implies, where it names none itself.
pub open spec fn with_implied_domain(cookie: Cookie, implied: Option<Seq<char>>) -> Cookie {
    if cookie.domain.len() == 0 && implied is Some {
        Cookie { domain: implied->0, ..cookie }
    } else {
        cookie
    }
}

/// The address and the cookie that setting a cookie comes down to, at a given
/// time.
pub fn cookie_to_set_at(url: &str, value: &str, now_epoch_s: i64) -> (set: (String, ParsedSetCookie))
    ensures
        set.0@ == fixed_url(url@),
        set.1@ == with_implied_domain(cookie_of(value@, now_epoch_s), implied_domain(url@)),
        cookie_of(value@, now_epoch_s).domain.len() > 0 || implied_domain(url@) is None ==> set.1@
            == cookie_of(value@, now_epoch_s),
        cookie_of(value@, now_epoch_s).domain.len() == 0 && implied_domain(url@) is Some ==> set.1@
            == (Cookie { domain: implied_domain(url@)->0, ..cookie_of(value@, now_epoch_s) }),
{
    let fixed = fixup_webview_cookie_url(url);
    let mut cookie = parse_set_cookie_at(value, now_epoch_s);
    let ghost before = cookie@;
    if cookie.domain.as_str().is_empty() {
        if let Some(domain) = fixed.implied_domain {
            cookie.domain = domain;
            assert(cookie@ =~= Cookie { domain: domain@, ..before });
        }
    }
    (fixed.url, cookie)
}

/// The address and the cookie that setting a cookie comes down to now, whatever the
/// clock shows.
pub fn cookie_to_set(url: &str, value: &str) -> (set: (String, ParsedSetCookie))
    ensures
        set.0@ == fixed_url(url@),
        exists|now: i64|
            now >= 0 && set.1@ == with_implied_domain(
                #[trigger] cookie_of(value@, now),
                implied_domain(url@),
            ),
{
    let now: i64 = epoch_seconds(clock_seconds());
    cookie_to_set_at(url, value, now)
}

/// An address that was completed is complete: completing it once more leaves it as
/// it is, and implies no domain any more.
pub proof fn law_completing_twice_is_completing_once(input: Seq<char>)
    ensures
        fixed_url(fixed_url(input)) == fixed_url(input),
        is_completed(input) ==> implied_domain(fixed_url(input)) is None,
{
    if is_completed(input) {
        reveal_strlit("://");
        reveal_strlit("http://");
        reveal_strlit("https://");
        let url = completed_url(input);
        if url[4] == 's' {
            assert(url.subrange(5, 8) =~= "://"@);
            assert(text::stands_at(url, "://"@, 5));
        } else {
            assert(url.subrange(4, 7) =~= "://"@);
            assert(text::stands_at(url, "://"@, 4));
        }
    }
}

/// A cookie as the store gives it.
#[derive(Debug)]
pub struct CookieEntry {
    pub name: String,
    pub value: String,
    pub domain: String,
    pub path: String,
    pub secure: bool,
    pub http_only: bool,
}

/// The first `n` cookies as a `Cookie` header writes them.
pub open spec fn cookie_header(cookies: Seq<CookieEntry>, n: nat) -> Seq<char>
    decreases n,
{
    if n == 0 {
        Seq::empty()
    } else {
        let own = cookies[n - 1].name@ + "="@ + cookies[n - 1].value@;
        if n == 1 {
            own
        } else {
            cookie_header(cookies, (n - 1) as nat) + "; "@ + own
        }
    }
}

/// Cookies as a `Cookie` header writes them: names and values with equals signs
/// between them, separated by semicolons and spaces.
pub fn format_cookies(cookies: &[CookieEntry]) -> (header: String)
    ensures
        header@ == cookie_header(cookies@, cookies@.len()),
{
    let mut header = String::new();
    let mut i: usize = 0;
    assert(header@ =~= Seq::<char>::empty());
    while i < cookies.len()
        invariant
            i <= cookies@.len(),
            header@ == cookie_header(cookies@, i as nat),
        decreases cookies@.len() - i,
    {
        let ghost before = header@;
        if i > 0 {
            header.append("; ");
        }
        header.append(cookies[i].name.as_str());
        header.append("=");
        header.append(cookies[i].value.as_str());
        proof {
            let own = cookies@[i as int].name@ + "="@ + cookies@[i as int].value@;
            if i == 0 {
                assert(header@ =~= own);
            } else {
                assert(header@ =~= before + "; "@ + own);
            }
        }
        i += 1;
    }
    header
}

/// The lifetime that an attribute states: none where it is no `Max-Age` or no
/// number follows.
pub open spec fn max_age_of(attr: Seq<char>) -> Option<i64> {
    let a = text::trimmed(attr);
    if a.len() > 0 && text::equal_ignoring_case(key_part(a), "max-age"@) {
        text::i64_of(value_part(a))
    } else {
        None
    }
}

proof fn lemma_attribute_names_differ(key: Seq<char>)
    requires
        text::equal_ignoring_case(key, "max-age"@) || text::equal_ignoring_case(key, "expires"@),
    ensures
        !text::equal_ignoring_case(key, "domain"@),
        !text::equal_ignoring_case(key, "path"@),
        !text::equal_ignoring_case(key, "secure"@),
        !text::equal_ignoring_case(key, "httponly"@),
        !text::equal_ignoring_case(key, "max-age"@) || !text::equal_ignoring_case(key, "expires"@),
{
    reveal_strlit("expires");
    reveal_strlit("domain");
    reveal_strlit("path");
    reveal_strlit("secure");
    reveal_strlit("httponly");
    reveal_strlit("max-age");
    assert(text::lower(key[0]) == text::lower("max-age"@[0]) || text::lower(key[0]) == text::lower(
        "expires"@[0],
    ));
}

/// A lifetime decides the expiry. Wherever the last `Max-Age` that states one
/// stands among the attributes, the cookie expires that long from now, whatever
/// any `Expires` says, before it or after it.
pub proof fn law_lifetime_decides(
    draft: Draft,
    attrs: Seq<Seq<char>>,
    n: nat,
    at: int,
    now: i64,
)
    requires
        0 <= at < n <= attrs.len(),
        max_age_of(attrs[at]) is Some,
        forall|j: int| at < j < n ==> max_age_of(#[trigger] attrs[j]) is None,
    ensures
        with_attributes(draft, attrs, n, now).has_max_age,
        with_attributes(draft, attrs, n, now).cookie.expires_epoch_s == saturated_sum(
            now,
            max_age_of(attrs[at])->0,
        ),
    decreases n,
{
    if n - 1 == at {
        lemma_attribute_names_differ(key_part(text::trimmed(attrs[at])));
    } else {
        law_lifetime_decides(draft, attrs, (n - 1) as nat, at, now);
        assert(max_age_of(attrs[n - 1]) is None);
    }
}

/// The expiry that an attribute states: none where it is no `Expires` or neither a
/// number nor an HTTP date follows.
pub open spec fn expires_of(attr: Seq<char>) -> Option<i64> {
    let a = text::trimmed(attr);
    if a.len() > 0 && text::equal_ignoring_case(key_part(a), "expires"@) {
        expiry(text::i64_of(value_part(a)), http_date(value_part(a)))
    } else {
        None
    }
}

/// Whether an attribute says when the cookie ends.
pub open spec fn states_end(attr: Seq<char>) -> bool {
    max_age_of(attr) is Some || expires_of(attr) is Some
}

/// The last lifetime that the first `n` attributes state, none where they state none.
pub open spec fn last_max_age(attrs: Seq<Seq<char>>, n: nat) -> Option<i64>
    decreases n,
{
    if n == 0 {
        None
    } else if max_age_of(attrs[n - 1]) is Some {
        max_age_of(attrs[n - 1])
    } else {
        last_max_age(attrs, (n - 1) as nat)
    }
}

proof fn lemma_end_of_draft(draft: Draft, attrs: Seq<Seq<char>>, n: nat, now: i64)
    requires
        n <= attrs.len(),
        !draft.has_max_age,
        draft.cookie.expires_epoch_s == 0,
    ensures
        ({
            let after = with_attributes(draft, attrs, n, now);
            &&& after.has_max_age == last_max_age(attrs, n) is Some
            &&& after.has_max_age ==> after.cookie.expires_epoch_s == saturated_sum(
                now,
                last_max_age(attrs, n)->0,
            ) && exists|j: int| 0 <= j < n && states_end(#[trigger] attrs[j])
            &&& !after.has_max_age ==> ((after.cookie.expires_epoch_s == 0) == (forall|j: int|
                0 <= j < n ==> !states_end(#[trigger] attrs[j])))
        }),
    decreases n,
{
    if n > 0 {
        let m = (n - 1) as nat;
        lemma_end_of_draft(draft, attrs, m, now);
        let before = with_attributes(draft, attrs, m, now);
        let after = with_attributes(draft, attrs, n, now);
        let attr = attrs[n - 1];
        let a = text::trimmed(attr);
        if a.len() > 0 && (text::equal_ignoring_case(key_part(a), "max-age"@)
            || text::equal_ignoring_case(key_part(a), "expires"@)) {
            lemma_attribute_names_differ(key_part(a));
        }
        if max_age_of(attr) is Some {
            assert(states_end(attrs[n - 1]));
        } else {
            assert(after.has_max_age == before.has_max_age);
            if after.has_max_age {
                let j = choose|j: int| 0 <= j < m && states_end(#[trigger] attrs[j]);
                assert(states_end(attrs[j]));
            } else if expires_of(attr) is Some {
                assert(states_end(attrs[n - 1]));
                law_expiry_is_never_the_session_mark(
                    text::i64_of(value_part(a)),
                    http_date(value_part(a)),
                );
            } else {
                assert(after.cookie.expires_epoch_s == before.cookie.expires_epoch_s);
                if forall|j: int| 0 <= j < m ==> !states_end(#[trigger] attrs[j]) {
                    assert forall|j: int| 0 <= j < n implies !states_end(#[trigger] attrs[j]) by {}
                }
            }
        }
    }
}

/// A cookie is a session cookie exactly where none of its attributes says when it
/// ends: no `Max-Age` with a number, and no `Expires` with a number or an HTTP date.
/// Left out is a lifetime that ends at the epoch itself: its expiry is zero, which
/// reads like that of a session cookie.
pub proof fn law_session_cookie_states_no_end(value: Seq<char>, now: i64)
    requires
        ({
            let attrs = text::parts(value, ';').skip(1);
            last_max_age(attrs, attrs.len()) matches Some(secs) ==> now + secs != 0
        }),
    ensures
        (cookie_of(value, now).expires_epoch_s == 0) == (forall|j: int|
            1 <= j < text::parts(value, ';').len() ==> !states_end(
                #[trigger] text::parts(value, ';')[j],
            )),
{
    let parts = text::parts(value, ';');
    let attrs = parts.skip(1);
    assert(parts.len() >= 1);
    let first = text::trimmed(parts[0]);
    let bare = Cookie {
        name: key_part(first),
        value: value_part(first),
        domain: Seq::empty(),
        path: Seq::empty(),
        secure: false,
        http_only: false,
        expires_epoch_s: 0,
    };
    let draft = Draft { cookie: bare, has_max_age: false };
    lemma_end_of_draft(draft, attrs, attrs.len(), now);
    assert(cookie_of(value, now) == with_attributes(draft, attrs, attrs.len(), now).cookie);
    if forall|j: int| 1 <= j < parts.len() ==> !states_end(#[trigger] parts[j]) {
        assert forall|j: int| 0 <= j < attrs.len() implies !states_end(#[trigger] attrs[j]) by {
            assert(!states_end(parts[j + 1]));
        }
    }
    if forall|j: int| 0 <= j < attrs.len() ==> !states_end(#[trigger] attrs[j]) {
        assert forall|j: int| 1 <= j < parts.len() implies !states_end(#[trigger] parts[j]) by {
            assert(!states_end(attrs[j - 1]));
        }
    }
}

/// No expiry is mistaken for a session cookie: the zero that marks one never
/// comes out of an expiry.
pub proof fn law_expiry_is_never_the_session_mark(number: Option<i64>, date: Option<u64>)
    ensures
        expiry(number, date) is Some ==> expiry(number, date)->0 != 0,
{
}

proof fn lemma_attributes_keep_the_pair(draft: Draft, attrs: Seq<Seq<char>>, n: nat, now: i64)
    ensures
        with_attributes(draft, attrs, n, now).cookie.name == draft.cookie.name,
        with_attributes(draft, attrs, n, now).cookie.value == draft.cookie.value,
    decreases n,
{
    if n > 0 {
        lemma_attributes_keep_the_pair(draft, attrs, (n - 1) as nat, now);
    }
}

proof fn lemma_trim_nothing(s: Seq<char>)
    requires
        s.len() > 0 ==> !text::is_white(s[0]) && !text::is_white(s.last()),
    ensures
        text::trimmed(s) == s,
{
    let none = Seq::<char>::empty();
    text::law_trimming_leaves_the_core(none, s, none);
    assert(none + s + none =~= s);
}

/// What a pair with white space around its parts is read as.
proof fn lemma_pair(
    a: Seq<char>,
    key: Seq<char>,
    b: Seq<char>,
    c: Seq<char>,
    value: Seq<char>,
    d: Seq<char>,
)
    requires
        !key.contains('='),
        key.len() > 0 ==> !text::is_white(key[0]) && !text::is_white(key.last()),
        value.len() > 0 ==> !text::is_white(value[0]) && !text::is_white(value.last()),
        forall|i: int| 0 <= i < a.len() ==> text::is_white(#[trigger] a[i]),
        forall|i: int| 0 <= i < b.len() ==> text::is_white(#[trigger] b[i]),
        forall|i: int| 0 <= i < c.len() ==> text::is_white(#[trigger] c[i]),
        forall|i: int| 0 <= i < d.len() ==> text::is_white(#[trigger] d[i]),
    ensures
        ({
            let pair = text::trimmed(a + key + b + seq!['='] + c + value + d);
            &&& pair.len() > 0
            &&& key_part(pair) == key
            &&& value_part(pair) == value
        }),
        ({
            let flag = text::trimmed(a + key + d);
            &&& flag == key
            &&& key_part(flag) == key
            &&& value_part(flag) == Seq::<char>::empty()
        }),
{
    let none = Seq::<char>::empty();
    let s = a + key + b + seq!['='] + c + value + d;
    let left = if key.len() > 0 {
        key + b
    } else {
        none
    };
    let right = if value.len() > 0 {
        c + value
    } else {
        none
    };
    let before = if key.len() > 0 {
        a
    } else {
        a + b
    };
    let behind = if value.len() > 0 {
        d
    } else {
        c + d
    };
    let core = left + seq!['='] + right;
    assert(s =~= before + core + behind);
    assert forall|i: int| 0 <= i < before.len() implies text::is_white(#[trigger] before[i]) by {
        if i < a.len() {
            assert(text::is_white(a[i]));
        } else {
            assert(text::is_white(b[i - a.len()]));
        }
    }
    assert forall|i: int| 0 <= i < behind.len() implies text::is_white(#[trigger] behind[i]) by {
        if value.len() > 0 {
            assert(text::is_white(d[i]));
        } else if i < c.len() {
            assert(text::is_white(c[i]));
        } else {
            assert(text::is_white(d[i - c.len()]));
        }
    }
    assert(!text::is_white('='));
    assert(core[0] == (if key.len() > 0 {
        key[0]
    } else {
        '='
    }));
    assert(core.last() == (if value.len() > 0 {
        value.last()
    } else {
        '='
    }));
    text::law_trimming_leaves_the_core(before, core, behind);
    assert(!left.contains('=')) by {
        assert forall|i: int| 0 <= i < left.len() implies #[trigger] left[i] != '=' by {
            if i < key.len() {
                assert(key[i] != '=');
            } else {
                assert(text::is_white(b[i - key.len()]));
            }
        }
    }
    assert(core =~= left.push('=') + right);
    text::law_first_occurrence_parts_a_text(left, '=', right);
    text::law_trimming_leaves_the_core(none, key, b);
    assert(none + key + b =~= key + b);
    text::law_trimming_leaves_the_core(c, value, none);
    assert(c + value + none =~= c + value);
    lemma_trim_nothing(none);
    text::law_trimming_leaves_the_core(a, key, d);
    text::law_first_occurrence_parts_a_text(key, '=', none);
}

/// A cookie's pair is read as it was written. Its name goes to the first equals sign and
/// its value to the first semicolon, with further equals signs if it has them; white
/// space around either is no part of it. Whatever attributes follow, the pair stays.
/// Without an equals sign there is a name alone.
pub proof fn law_pair_is_read_as_it_was_written(
    a: Seq<char>,
    name: Seq<char>,
    b: Seq<char>,
    c: Seq<char>,
    value: Seq<char>,
    d: Seq<char>,
    attributes: Seq<char>,
    now: i64,
)
    requires
        !name.contains('=') && !name.contains(';') && !value.contains(';'),
        name.len() > 0 ==> !text::is_white(name[0]) && !text::is_white(name.last()),
        value.len() > 0 ==> !text::is_white(value[0]) && !text::is_white(value.last()),
        forall|i: int| 0 <= i < a.len() ==> text::is_white(#[trigger] a[i]),
        forall|i: int| 0 <= i < b.len() ==> text::is_white(#[trigger] b[i]),
        forall|i: int| 0 <= i < c.len() ==> text::is_white(#[trigger] c[i]),
        forall|i: int| 0 <= i < d.len() ==> text::is_white(#[trigger] d[i]),
    ensures
        ({
            let pair = a + name + b + seq!['='] + c + value + d;
            let alone = cookie_of(pair, now);
            let more = cookie_of(pair + seq![';'] + attributes, now);
            &&& alone.name == name && alone.value == value
            &&& more.name == name && more.value == value
            &&& alone.domain.len() == 0 && alone.path.len() == 0
            &&& !alone.secure && !alone.http_only
            &&& alone.expires_epoch_s == 0
        }),
        ({
            let bare = cookie_of(a + name + d, now);
            let more = cookie_of(a + name + d + seq![';'] + attributes, now);
            &&& bare.name == name && bare.value.len() == 0
            &&& more.name == name && more.value.len() == 0
        }),
{
    let pair = a + name + b + seq!['='] + c + value + d;
    lemma_pair(a, name, b, c, value, d);
    assert(!pair.contains(';')) by {
        assert forall|i: int| 0 <= i < pair.len() implies #[trigger] pair[i] != ';' by {
            lemma_not_in_pair(a, name, b, c, value, d, i);
        }
    }
    text::law_splitting_takes_a_text_apart(pair, ';', attributes);
    assert(pair.push(';') + attributes =~= pair + seq![';'] + attributes);
    lemma_first_part_is_the_pair(pair, attributes, now);
    let flag = a + name + d;
    assert(!flag.contains(';')) by {
        assert forall|i: int| 0 <= i < flag.len() implies #[trigger] flag[i] != ';' by {
            if i < a.len() {
                assert(text::is_white(a[i]));
            } else if i < a.len() + name.len() {
                assert(name[i - a.len()] != ';');
            } else {
                assert(text::is_white(d[i - a.len() - name.len()]));
            }
        }
    }
    text::law_splitting_takes_a_text_apart(flag, ';', attributes);
    assert(flag.push(';') + attributes =~= flag + seq![';'] + attributes);
    lemma_first_part_is_the_pair(flag, attributes, now);
}

proof fn lemma_not_in_pair(
    a: Seq<char>,
    name: Seq<char>,
    b: Seq<char>,
    c: Seq<char>,
    value: Seq<char>,
    d: Seq<char>,
    i: int,
)
    requires
        !name.contains(';') && !value.contains(';'),
        forall|i: int| 0 <= i < a.len() ==> text::is_white(#[trigger] a[i]),
        forall|i: int| 0 <= i < b.len() ==> text::is_white(#[trigger] b[i]),
        forall|i: int| 0 <= i < c.len() ==> text::is_white(#[trigger] c[i]),
        forall|i: int| 0 <= i < d.len() ==> text::is_white(#[trigger] d[i]),
        0 <= i < (a + name + b + seq!['='] + c + value + d).len(),
    ensures
        (a + name + b + seq!['='] + c + value + d)[i] != ';',
{
    assert(!text::is_white(';'));
    let la = a.len() as int;
    let ln = la + name.len();
    let lb = ln + b.len();
    let lc = lb + 1 + c.len();
    let lv = lc + value.len();
    if i < la {
        assert(text::is_white(a[i]));
    } else if i < ln {
        assert(name[i - la] != ';');
    } else if i < lb {
        assert(text::is_white(b[i - ln]));
    } else if i == lb {
    } else if i < lc {
        assert(text::is_white(c[i - lb - 1]));
    } else if i < lv {
        assert(value[i - lc] != ';');
    } else {
        assert(text::is_white(d[i - lv]));
    }
}

proof fn lemma_first_part_is_the_pair(pair: Seq<char>, attributes: Seq<char>, now: i64)
    requires
        !pair.contains(';'),
    ensures
        ({
            let first = text::trimmed(pair);
            let alone = cookie_of(pair, now);
            let more = cookie_of(pair + seq![';'] + attributes, now);
            &&& alone.name == key_part(first) && alone.value == value_part(first)
            &&& more.name == key_part(first) && more.value == value_part(first)
            &&& alone.domain.len() == 0 && alone.path.len() == 0
            &&& !alone.secure && !alone.http_only
            &&& alone.expires_epoch_s == 0
        }),
{
    text::law_splitting_takes_a_text_apart(pair, ';', attributes);
    let whole = pair + seq![';'] + attributes;
    assert(pair.push(';') + attributes =~= whole);
    let parts = text::parts(whole, ';');
    let first = text::trimmed(pair);
    let draft = Draft {
        cookie: Cookie {
            name: key_part(first),
            value: value_part(first),
            domain: Seq::empty(),
            path: Seq::empty(),
            secure: false,
            http_only: false,
            expires_epoch_s: 0,
        },
        has_max_age: false,
    };
    assert(parts[0] == pair);
    lemma_attributes_keep_the_pair(draft, parts.skip(1), (parts.len() - 1) as nat, now);
    assert(cookie_of(whole, now).name == key_part(first));
    assert(text::parts(pair, ';').len() == 1);
}

spec fn draft_of(value: Seq<char>, now: i64) -> Draft {
    let parts = text::parts(value, ';');
    let first = text::trimmed(parts[0]);
    with_attributes(
        Draft {
            cookie: Cookie {
                name: key_part(first),
                value: value_part(first),
                domain: Seq::empty(),
                path: Seq::empty(),
                secure: false,
                http_only: false,
                expires_epoch_s: 0,
            },
            has_max_age: false,
        },
        parts.skip(1),
        (parts.len() - 1) as nat,
        now,
    )
}

proof fn lemma_attributes_agree(
    draft: Draft,
    a: Seq<Seq<char>>,
    b: Seq<Seq<char>>,
    n: nat,
    now: i64,
)
    requires
        n <= a.len(),
        n <= b.len(),
        forall|i: int| 0 <= i < n ==> #[trigger] a[i] == b[i],
    ensures
        with_attributes(draft, a, n, now) == with_attributes(draft, b, n, now),
    decreases n,
{
    if n > 0 {
        lemma_attributes_agree(draft, a, b, (n - 1) as nat, now);
        assert(a[n - 1] == b[n - 1]);
    }
}

proof fn lemma_one_more_attribute(value: Seq<char>, attr: Seq<char>, now: i64)
    requires
        !attr.contains(';'),
    ensures
        cookie_of(value, now) == draft_of(value, now).cookie,
        cookie_of(value + seq![';'] + attr, now) == with_attribute(
            draft_of(value, now),
            attr,
            now,
        ).cookie,
        draft_of(value + seq![';'] + attr, now) == with_attribute(draft_of(value, now), attr, now),
{
    let longer = value + seq![';'] + attr;
    assert(longer =~= value.push(';') + attr);
    text::law_part_is_added_at_the_end(value, ';', attr);
    text::law_parts_lack_the_separator(value, ';');
    let a = text::parts(value, ';');
    let b = text::parts(longer, ';');
    assert(b =~= a.push(attr));
    assert(b[0] == a[0]);
    let n = (a.len() - 1) as nat;
    let first = text::trimmed(a[0]);
    let start = Draft {
        cookie: Cookie {
            name: key_part(first),
            value: value_part(first),
            domain: Seq::empty(),
            path: Seq::empty(),
            secure: false,
            http_only: false,
            expires_epoch_s: 0,
        },
        has_max_age: false,
    };
    assert forall|i: int| 0 <= i < n implies #[trigger] a.skip(1)[i] == b.skip(1)[i] by {}
    lemma_attributes_agree(start, a.skip(1), b.skip(1), n, now);
    assert(b.skip(1)[n as int] == attr);
}

proof fn lemma_names_are_seven(key: Seq<char>)
    ensures
        text::equal_ignoring_case(key, "domain"@) ==> key.len() == 6 && text::lower(key[0]) == 'd',
        text::equal_ignoring_case(key, "path"@) ==> key.len() == 4,
        text::equal_ignoring_case(key, "secure"@) ==> key.len() == 6 && text::lower(key[0]) == 's',
        text::equal_ignoring_case(key, "httponly"@) ==> key.len() == 8,
        text::equal_ignoring_case(key, "max-age"@) ==> key.len() == 7 && text::lower(key[0]) == 'm',
        text::equal_ignoring_case(key, "expires"@) ==> key.len() == 7 && text::lower(key[0]) == 'e',
{
    reveal_strlit("domain");
    reveal_strlit("path");
    reveal_strlit("secure");
    reveal_strlit("httponly");
    reveal_strlit("max-age");
    reveal_strlit("expires");
}

/// What an attribute behind a cookie changes: `Domain` and `Path` set the domain and the
/// path, `Secure` and `HttpOnly` are switched on with a value or without one, and a
/// `Max-Age` with a number sets the expiry that long from now, cut off at the ends of the
/// range. The case of the name does not matter, nor does white space. Everything else
/// about the cookie stays, and an attribute with any other name changes nothing.
pub proof fn law_attribute_sets_what_it_names(
    cookie: Seq<char>,
    a: Seq<char>,
    key: Seq<char>,
    b: Seq<char>,
    c: Seq<char>,
    value: Seq<char>,
    d: Seq<char>,
    now: i64,
)
    requires
        key.len() > 0,
        !key.contains('=') && !key.contains(';') && !value.contains(';'),
        !text::is_white(key[0]) && !text::is_white(key.last()),
        value.len() > 0 ==> !text::is_white(value[0]) && !text::is_white(value.last()),
        forall|i: int| 0 <= i < a.len() ==> text::is_white(#[trigger] a[i]),
        forall|i: int| 0 <= i < b.len() ==> text::is_white(#[trigger] b[i]),
        forall|i: int| 0 <= i < c.len() ==> text::is_white(#[trigger] c[i]),
        forall|i: int| 0 <= i < d.len() ==> text::is_white(#[trigger] d[i]),
    ensures
        ({
            let before = cookie_of(cookie, now);
            let pair = cookie_of(
                cookie + seq![';'] + (a + key + b + seq!['='] + c + value + d),
                now,
            );
            let flag = cookie_of(cookie + seq![';'] + (a + key + d), now);
            let ends = |secs: int|
                if now + secs > i64::MAX {
                    i64::MAX as int
                } else if now + secs < i64::MIN {
                    i64::MIN as int
                } else {
                    now + secs
                };
            &&& text::equal_ignoring_case(key, "domain"@) ==> pair == (Cookie {
                domain: value,
                ..before
            })
            &&& text::equal_ignoring_case(key, "path"@) ==> pair == (Cookie {
                path: value,
                ..before
            })
            &&& text::equal_ignoring_case(key, "secure"@) ==> pair == (Cookie {
                secure: true,
                ..before
            }) && flag == pair
            &&& text::equal_ignoring_case(key, "httponly"@) ==> pair == (Cookie {
                http_only: true,
                ..before
            }) && flag == pair
            &&& text::equal_ignoring_case(key, "max-age"@) && text::i64_of(value) is Some ==> pair
                == (Cookie { expires_epoch_s: pair.expires_epoch_s, ..before })
                && pair.expires_epoch_s == ends(text::i64_of(value)->0 as int)
            &&& text::equal_ignoring_case(key, "max-age"@) && text::i64_of(value) is None ==> pair
                == before
            &&& text::equal_ignoring_case(key, "expires"@) ==> pair == (Cookie {
                expires_epoch_s: pair.expires_epoch_s,
                ..before
            })
            &&& !text::equal_ignoring_case(key, "domain"@) && !text::equal_ignoring_case(
                key,
                "path"@,
            ) && !text::equal_ignoring_case(key, "secure"@) && !text::equal_ignoring_case(
                key,
                "httponly"@,
            ) && !text::equal_ignoring_case(key, "max-age"@) && !text::equal_ignoring_case(
                key,
                "expires"@,
            ) ==> pair == before && flag == before
        }),
{
    let attr = a + key + b + seq!['='] + c + value + d;
    let flag = a + key + d;
    lemma_pair(a, key, b, c, value, d);
    assert(!attr.contains(';')) by {
        assert forall|i: int| 0 <= i < attr.len() implies #[trigger] attr[i] != ';' by {
            lemma_not_in_pair(a, key, b, c, value, d, i);
        }
    }
    assert(!flag.contains(';')) by {
        assert forall|i: int| 0 <= i < flag.len() implies #[trigger] flag[i] != ';' by {
            if i < a.len() {
                assert(text::is_white(a[i]));
            } else if i < a.len() + key.len() {
                assert(key[i - a.len()] != ';');
            } else {
                assert(text::is_white(d[i - a.len() - key.len()]));
            }
        }
    }
    lemma_one_more_attribute(cookie, attr, now);
    lemma_one_more_attribute(cookie, flag, now);
    lemma_names_are_seven(key);
}

/// An `Expires` sets the expiry to the number or the HTTP date that it gives, the number
/// first, and minus one stands for the epoch itself; without either it changes nothing.
/// Behind a `Max-Age` that gives a number it changes nothing either, and a `Max-Age`
/// behind it takes its place.
pub proof fn law_expires_gives_way_to_max_age(
    pair: Seq<char>,
    max_age: Seq<char>,
    secs: Seq<char>,
    expires: Seq<char>,
    date: Seq<char>,
    now: i64,
)
    requires
        !pair.contains(';') && !secs.contains(';') && !date.contains(';'),
        text::equal_ignoring_case(max_age, "max-age"@),
        text::equal_ignoring_case(expires, "expires"@),
        text::i64_of(secs) is Some,
        date.len() > 0,
        !text::is_white(date[0]) && !text::is_white(date.last()),
    ensures
        ({
            let age = seq![';'] + (max_age + seq!['='] + secs);
            let end = seq![';'] + (expires + seq!['='] + date);
            let number = text::i64_of(date);
            let moment = http_date(date);
            let ended = cookie_of(pair + end, now).expires_epoch_s;
            let lasting = cookie_of(pair + age, now).expires_epoch_s;
            &&& number is Some ==> ended == (if number->0 == 0 {
                -1
            } else {
                number->0 as int
            })
            &&& number is None && moment is Some ==> ended == (if moment->0 == 0 {
                -1
            } else if moment->0 > i64::MAX {
                i64::MAX as int
            } else {
                moment->0 as int
            })
            &&& number is None && moment is None ==> ended == 0
            &&& cookie_of(pair + age + end, now).expires_epoch_s == lasting
            &&& cookie_of(pair + end + age, now).expires_epoch_s == lasting
            &&& lasting == (if now + text::i64_of(secs)->0 > i64::MAX {
                i64::MAX as int
            } else if now + text::i64_of(secs)->0 < i64::MIN {
                i64::MIN as int
            } else {
                now + text::i64_of(secs)->0
            })
        }),
{
    let none = Seq::<char>::empty();
    let age = max_age + seq!['='] + secs;
    let end = expires + seq!['='] + date;
    reveal_strlit("max-age");
    reveal_strlit("expires");
    lemma_plain_name(max_age, "max-age"@);
    lemma_plain_name(expires, "expires"@);
    lemma_number_is_plain(secs);
    lemma_pair(none, max_age, none, none, secs, none);
    lemma_pair(none, expires, none, none, date, none);
    assert(none + max_age + none + seq!['='] + none + secs + none =~= age);
    assert(none + expires + none + seq!['='] + none + date + none =~= end);
    assert(!age.contains(';')) by {
        assert forall|i: int| 0 <= i < age.len() implies #[trigger] age[i] != ';' by {
            lemma_not_in_pair(none, max_age, none, none, secs, none, i);
        }
    }
    assert(!end.contains(';')) by {
        assert forall|i: int| 0 <= i < end.len() implies #[trigger] end[i] != ';' by {
            lemma_not_in_pair(none, expires, none, none, date, none, i);
        }
    }
    assert(pair + (seq![';'] + age) =~= pair + seq![';'] + age);
    assert(pair + (seq![';'] + end) =~= pair + seq![';'] + end);
    assert(pair + (seq![';'] + age) + (seq![';'] + end) =~= pair + seq![';'] + age + seq![';']
        + end);
    assert(pair + (seq![';'] + end) + (seq![';'] + age) =~= pair + seq![';'] + end + seq![';']
        + age);
    text::law_splitting_takes_a_text_apart(pair, ';', none);
    assert(!draft_of(pair, now).has_max_age);
    assert(draft_of(pair, now).cookie.expires_epoch_s == 0);
    lemma_one_more_attribute(pair, age, now);
    lemma_one_more_attribute(pair, end, now);
    lemma_one_more_attribute(pair + seq![';'] + age, end, now);
    lemma_one_more_attribute(pair + seq![';'] + end, age, now);
    lemma_names_are_seven(max_age);
    lemma_names_are_seven(expires);
}

proof fn lemma_plain_name(key: Seq<char>, name: Seq<char>)
    requires
        text::equal_ignoring_case(key, name),
        name.len() > 0,
        forall|i: int| 0 <= i < name.len() ==> 'a' <= #[trigger] name[i] <= 'z' || name[i] == '-',
    ensures
        !key.contains('=') && !key.contains(';'),
        key.len() > 0 && !text::is_white(key[0]) && !text::is_white(key.last()),
{
    assert forall|i: int| 0 <= i < key.len() implies #[trigger] key[i] != '=' && key[i] != ';'
        && !text::is_white(key[i]) by {
        assert(text::lower(key[i]) == text::lower(name[i]));
    }
}

proof fn lemma_number_is_plain(s: Seq<char>)
    requires
        text::i64_of(s) is Some,
    ensures
        s.len() > 0 && !text::is_white(s[0]) && !text::is_white(s.last()),
{
    let signed = s.len() > 0 && (s[0] == '-' || s[0] == '+');
    if signed {
        let digits = s.skip(1);
        assert(text::is_digit(digits[digits.len() - 1]));
    } else {
        assert(text::is_digit(s[0]));
        assert(text::is_digit(s[s.len() - 1]));
    }
}

/// A header holds the cookies that were put into it, one after the other: taken apart at
/// its semicolons it gives the names and the values again, in their order.
pub proof fn law_header_holds_the_cookies(cookies: Seq<CookieEntry>, n: nat, i: int)
    requires
        0 <= i < n <= cookies.len(),
        forall|k: int|
            0 <= k < cookies.len() ==> !(#[trigger] cookies[k]).name@.contains(';')
                && !cookies[k].value@.contains(';'),
    ensures
        ({
            let parts = text::parts(cookie_header(cookies, n), ';');
            let own = cookies[i].name@ + seq!['='] + cookies[i].value@;
            &&& parts.len() == n
            &&& parts[i] == (if i == 0 {
                own
            } else {
                seq![' '] + own
            })
        }),
        cookie_header(cookies, 0) == Seq::<char>::empty(),
    decreases n,
{
    reveal_strlit("=");
    reveal_strlit("; ");
    let last = cookies[n - 1];
    let own = last.name@ + seq!['='] + last.value@;
    assert("="@ =~= seq!['=']);
    let part = if n == 1 {
        own
    } else {
        seq![' '] + own
    };
    assert(!part.contains(';')) by {
        assert forall|k: int| 0 <= k < part.len() implies #[trigger] part[k] != ';' by {
            let from = part.len() - own.len();
            if k >= from {
                let j = k - from;
                assert(part[k] == own[j]);
                if j < last.name@.len() {
                    assert(last.name@[j] != ';');
                } else if j > last.name@.len() {
                    assert(last.value@[j - last.name@.len() - 1] != ';');
                }
            }
        }
    }
    if n == 1 {
        text::law_splitting_takes_a_text_apart(own, ';', Seq::empty());
        assert(cookie_header(cookies, 1) =~= own);
    } else {
        let head = cookie_header(cookies, (n - 1) as nat);
        assert(cookie_header(cookies, n) =~= head.push(';') + part);
        text::law_part_is_added_at_the_end(head, ';', part);
        if i < n - 1 {
            law_header_holds_the_cookies(cookies, (n - 1) as nat, i);
        } else {
            law_header_holds_the_cookies(cookies, (n - 1) as nat, 0);
        }
    }
}

/// A cookie that is read and written again is the same pair.
pub proof fn law_written_cookie_is_read_again(cookies: Seq<CookieEntry>, i: int, now: i64)
    requires
        0 <= i < cookies.len(),
        forall|k: int|
            0 <= k < cookies.len() ==> !(#[trigger] cookies[k]).name@.contains(';')
                && !cookies[k].value@.contains(';'),
        !cookies[i].name@.contains('='),
        ({
            let name = cookies[i].name@;
            let value = cookies[i].value@;
            &&& name.len() > 0 ==> !text::is_white(name[0]) && !text::is_white(name.last())
            &&& value.len() > 0 ==> !text::is_white(value[0]) && !text::is_white(value.last())
        }),
    ensures
        ({
            let part = text::parts(cookie_header(cookies, cookies.len()), ';')[i];
            let read = cookie_of(part, now);
            read.name == cookies[i].name@ && read.value == cookies[i].value@
        }),
{
    law_header_holds_the_cookies(cookies, cookies.len(), i);
    let none = Seq::<char>::empty();
    let a = if i == 0 {
        none
    } else {
        seq![' ']
    };
    let name = cookies[i].name@;
    let value = cookies[i].value@;
    law_pair_is_read_as_it_was_written(a, name, none, none, value, none, none, now);
    let part = text::parts(cookie_header(cookies, cookies.len()), ';')[i];
    assert(a + name + none + seq!['='] + none + value + none =~= part);
}

/// What breaks an address off is the space, what comes before it, and delete.
pub proof fn law_spaces_and_controls_break(c: char)
    ensures
        is_break(c) <==> c <= ' ' || c == '\u{7f}',
{
}

/// A bare address is completed. It is a host, with a port and a path if it has them, and
/// the scheme is that of the port: `https` for 443, `http` for any other and for none. A
/// path that is missing becomes a slash. A dot before the host goes, and makes the host
/// with its dot the implied domain.
pub proof fn law_bare_address_is_completed(
    dot: bool,
    host: Seq<char>,
    port: Option<Seq<char>>,
    path: Seq<char>,
)
    requires
        host.len() > 0 && host[0] != '.' && host.last() != '.',
        forall|i: int|
            0 <= i < host.len() ==> '0' <= #[trigger] host[i] <= '9' || 'a' <= host[i] <= 'z'
                || 'A' <= host[i] <= 'Z' || host[i] == '.' || host[i] == '-' || host[i] == '_',
        port matches Some(p) ==> forall|i: int|
            0 <= i < p.len() ==> '0' <= #[trigger] p[i] <= '9',
        path.len() > 0 ==> path[0] == '/',
        forall|i: int| 0 <= i < path.len() ==> !is_break(#[trigger] path[i]),
        ({
            let authority = host + (match port {
                Some(p) => seq![':'] + p,
                None => Seq::empty(),
            });
            let input = (if dot {
                seq!['.']
            } else {
                Seq::empty()
            }) + authority + path;
            !text::occurs(input, "://"@)
        }),
    ensures
        ({
            let authority = host + (match port {
                Some(p) => seq![':'] + p,
                None => Seq::empty(),
            });
            let input = (if dot {
                seq!['.']
            } else {
                Seq::empty()
            }) + authority + path;
            let slash = if path.len() == 0 {
                seq!['/']
            } else {
                path
            };
            &&& port == Some("443"@) ==> fixed_url(input) == "https://"@ + authority + slash
            &&& port != Some("443"@) ==> fixed_url(input) == "http://"@ + authority + slash
            &&& implied_domain(input) == (if dot {
                Some(seq!['.'] + host)
            } else {
                None
            })
        }),
{
    let tail = match port {
        Some(p) => seq![':'] + p,
        None => Seq::empty(),
    };
    let hp = host + tail;
    let lead = if dot {
        seq!['.']
    } else {
        Seq::empty()
    };
    let input = lead + hp + path;
    let front = lead + hp;
    assert(!front.contains('/')) by {
        assert forall|i: int| 0 <= i < front.len() implies #[trigger] front[i] != '/' by {
            if i < lead.len() {
            } else if i < lead.len() + host.len() {
                let c = host[i - lead.len()];
                assert(front[i] == c);
            } else {
                let p = port->0;
                let k = i - lead.len() - host.len();
                assert(front[i] == tail[k]);
                if k > 0 {
                    assert(tail[k] == p[k - 1]);
                }
            }
        }
    }
    if path.len() > 0 {
        assert(input =~= front.push('/') + path.skip(1));
        text::law_first_occurrence_parts_a_text(front, '/', path.skip(1));
    } else {
        assert(input =~= front);
        text::law_first_occurrence_parts_a_text(front, '/', Seq::empty());
    }
    assert(text::find(input, '/') == front.len());
    assert(authority(input) =~= front);
    assert(path_part(input) =~= path);
    assert(front.len() > 1 || !dot);
    assert(host_port(input) =~= hp) by {
        if dot {
            assert(front.skip(1) =~= hp);
        } else {
            assert(front[0] == host[0]);
        }
    }
    assert(!host.contains(':')) by {
        assert forall|i: int| 0 <= i < host.len() implies #[trigger] host[i] != ':' by {}
    }
    match port {
        Some(p) => {
            assert(!p.contains(':')) by {
                assert forall|i: int| 0 <= i < p.len() implies #[trigger] p[i] != ':' by {}
            }
            text::law_last_occurrence_has_none_behind(host, ':', p);
            assert(hp =~= host.push(':') + p);
            assert(hp.skip(host.len() as int + 1) =~= p);
            assert(port_at(hp) == Some(host.len() as int));
            assert(hp.take(host.len() as int) =~= host);
        },
        None => {
            text::law_last_occurrence_has_none_behind(Seq::empty(), ':', host);
            assert(hp =~= host);
        },
    }
    assert(host_of(hp) == host);
    assert(is_host(host));
    assert(is_completed(input));
    reveal_strlit("/");
    reveal_strlit(".");
    assert("/"@ =~= seq!['/']);
    assert("."@ =~= seq!['.']);
}

/// Any other address is kept as it is and implies no domain: one with a scheme, an empty
/// one, one with a space or a control character in its path, and one with a character
/// before its path that is in no host and no port.
pub proof fn law_other_addresses_are_kept(input: Seq<char>, at: int)
    requires
        ({
            ||| text::occurs(input, "://"@)
            ||| input.len() == 0
            ||| 0 <= at < input.len() && input.take(at).contains('/') && is_break(input[at])
            ||| 0 <= at < input.len() && !input.take(at + 1).contains('/') && !('0' <= input[at]
                <= '9' || 'a' <= input[at] <= 'z' || 'A' <= input[at] <= 'Z' || input[at] == '.'
                || input[at] == '-' || input[at] == '_' || input[at] == ':')
        }),
    ensures
        fixed_url(input) == input,
        implied_domain(input) is None,
{
    if !text::occurs(input, "://"@) && input.len() > 0 {
        let slash = text::find(input, '/') as int;
        text::lemma_find(input, '/');
        if input.take(at).contains('/') {
            let k = choose|k: int| 0 <= k < at && input.take(at)[k] == '/';
            assert(input[k] == '/');
            assert(slash <= k);
            assert(path_part(input)[at - slash] == input[at]);
            assert(is_break(input[at]));
        } else {
            if slash <= at {
                assert(input.take(at + 1)[slash] == '/');
            }
            let hp = host_port(input);
            let from = if has_leading_dot(input) {
                1int
            } else {
                0
            };
            assert(at >= from);
            assert(hp[at - from] == input[at]);
            text::lemma_find_last(hp, ':');
            let host = host_of(hp);
            if at - from < host.len() {
                assert(host[at - from] == input[at]);
                assert(!is_host_char(host[at - from]));
            } else {
                let p = port_at(hp)->0;
                if at - from > p {
                    assert(hp.skip(p + 1)[at - from - p - 1] == input[at]);
                }
            }
        }
    }
}

} // verus!
