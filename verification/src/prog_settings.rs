//! Program settings: the command line, the shape of the configuration,
//! its validation rules, `${NAME}` substitution and the merging of the
//! configuration files.

use vstd::prelude::*;
use vstd::string::*;
use crate::log::LogLevel;
use crate::text::{chars_of, push_char};

verus! {

/// One monitored service, as a configuration file describes it.
#[derive(Debug)]
pub struct MonitorTarget {
    pub kind: String,
    pub url: String,
    pub method: String,
    pub body: Option<String>,
    pub check_interval_secs: Option<i32>,
    pub expect_status_code: Option<u16>,
    pub expect_match: Option<String>,
    pub expect_unmatch: Option<String>,
    pub custom_check_cmd: String,
    pub recovery_cmd: String,
    pub connect_timeout: Option<u64>,
    pub timeout: Option<u64>,
    pub read_timeout: Option<u64>,
}

/// A copy of an optional string.
pub fn clone_opt_string(o: &Option<String>) -> (r: Option<String>)
    ensures
        r == *o,
{
    match o {
        Some(s) => Some(s.clone()),
        None => None,
    }
}

impl Clone for MonitorTarget {
    fn clone(&self) -> (r: Self)
        ensures
            r == *self,
    {
        MonitorTarget {
            kind: self.kind.clone(),
            url: self.url.clone(),
            method: self.method.clone(),
            body: clone_opt_string(&self.body),
            check_interval_secs: self.check_interval_secs,
            expect_status_code: self.expect_status_code,
            expect_match: clone_opt_string(&self.expect_match),
            expect_unmatch: clone_opt_string(&self.expect_unmatch),
            custom_check_cmd: self.custom_check_cmd.clone(),
            recovery_cmd: self.recovery_cmd.clone(),
            connect_timeout: self.connect_timeout,
            timeout: self.timeout,
            read_timeout: self.read_timeout,
        }
    }
}

/// Settings shared by all targets (the `_common` section).
#[derive(Debug)]
pub struct CommonSettings {
    pub report_to: Option<String>,
    pub report_from: Option<String>,
    pub smtp_host: Option<String>,
    pub smtp_port: Option<u16>,
    pub smtp_user: Option<String>,
    pub smtp_pass: Option<String>,
    pub smtp_starttls: bool,
    pub smtp_no_verify_hostname: bool,
    pub smtp_no_check_certificate: bool,
    pub check_interval_secs: i32,
    pub min_log_level: LogLevel,
    pub connect_timeout: u64,
    pub read_timeout: u64,
    pub timeout: u64,
}

/// The command line: the directory that holds the configuration files.
pub struct CmdArgs {
    pub cfg_dir: String,
}

impl CmdArgs {
    /// Reads the command line from the program's arguments, the program's
    /// own name first: the configuration directory is the second argument.
    pub fn parse(args: &Vec<String>) -> (r: Result<CmdArgs, String>)
        ensures
            args.len() > 1 ==> (r matches Ok(a) && a.cfg_dir == args[1]),
            args.len() <= 1 ==> (r matches Err(m) && m@ == "Not enough arguments."@),
    {
        if args.len() > 1 {
            Ok(CmdArgs { cfg_dir: args[1].clone() })
        } else {
            Err(String::from_str("Not enough arguments."))
        }
    }
}

/// Whether `char::is_alphanumeric` holds of a character (Unicode's
/// alphabetic or numeric classes).
pub uninterp spec fn is_alphanumeric_char(c: char) -> bool;

/// Calls `char::is_alphanumeric`; the result is named `is_alphanumeric_char`.
#[verifier::external_body]
fn char_is_alphanumeric(c: char) -> (r: bool)
    ensures
        r == is_alphanumeric_char(c),
{
    c.is_alphanumeric()
}

/// A character allowed in a host name label.
pub open spec fn is_label_char(c: char) -> bool {
    is_alphanumeric_char(c) || c == '-'
}

/// A host name: the text cut at each `.` gives parts that are all
/// non-empty and made of label characters. Stated over positions: the text
/// is not empty, neither starts nor ends with `.`, holds no two `.` in a
/// row, and every other character is a label character.
pub open spec fn is_hostname(s: Seq<char>) -> bool {
    &&& s.len() > 0
    &&& s[0] != '.'
    &&& s[s.len() - 1] != '.'
    &&& forall|i: int| 0 <= i < s.len() - 1 && #[trigger] s[i] == '.' ==> s[i + 1] != '.'
    &&& forall|i: int| 0 <= i < s.len() && s[i] != '.' ==> is_label_char(s[i])
}

/// Whether a text is a host name (see `is_hostname`).
pub fn check_hostname(value: &str) -> (r: bool)
    ensures
        r == is_hostname(value@),
{
    let v = chars_of(value);
    let n = v.len();
    if n == 0 || v[0] == '.' || v[n - 1] == '.' {
        return false;
    }
    for i in 0..n
        invariant
            n == v@.len(),
            v@ == value@,
            n > 0,
            forall|j: int| 0 <= j < i && j < n - 1 && #[trigger] v@[j] == '.' ==> v@[j + 1] != '.',
            forall|j: int| 0 <= j < i && v@[j] != '.' ==> is_label_char(v@[j]),
    {
        let c = v[i];
        if c == '.' {
            if i + 1 < n && v[i + 1] == '.' {
                return false;
            }
        } else if !(char_is_alphanumeric(c) || c == '-') {
            return false;
        }
    }
    true
}

/// The message of a rejected host setting.
pub open spec fn bad_host_message() -> Seq<char> {
    "must be a valid IP address or hostname"@
}

/// Checks the `smtp_host` setting: absent, an IP address, or a host name.
/// Whether the text parses as an IP address (`std::net::IpAddr`) is
/// `value_is_ip`, which the caller reads from the standard library.
pub fn validate_ip_or_hostname(value: &Option<String>, value_is_ip: bool, _context: &()) -> (r: Result<(), String>)
    ensures
        match value {
            None => r is Ok,
            Some(v) => if value_is_ip || is_hostname(v@) {
                r is Ok
            } else {
                r matches Err(m) && m@ == bad_host_message()
            },
        },
{
    match value {
        Some(v) => {
            if value_is_ip {
                return Ok(());
            }
            if check_hostname(v.as_str()) {
                Ok(())
            } else {
                Err(String::from_str("must be a valid IP address or hostname"))
            }
        },
        None => Ok(()),
    }
}

/// What `url::Url::parse` gives for a text: `None` when it parses, else the
/// text of its `ParseError`.
pub uninterp spec fn url_parse_failure(input: Seq<char>) -> Option<Seq<char>>;

/// Calls `url::Url::parse` and keeps only the error's text (`to_string`);
/// the outcome is named `url_parse_failure`.
#[verifier::external_body]
fn url_parse(input: &str) -> (r: Option<String>)
    ensures
        r matches Some(m) ==> url_parse_failure(input@) == Some(m@),
        r is None ==> url_parse_failure(input@) is None,
{
    match url::Url::parse(input) {
        Ok(_) => None,
        Err(e) => Some(e.to_string()),
    }
}

/// Checks a target's `url` setting: empty, or a URL that `url` parses;
/// otherwise the parser's message.
pub fn validate_url_or_empty(value: &String, _context: &()) -> (r: Result<(), String>)
    ensures
        value@.len() == 0 ==> r is Ok,
        value@.len() > 0 ==> match url_parse_failure(value@) {
            None => r is Ok,
            Some(m) => r matches Err(e) && e@ == m,
        },
{
    let chars = chars_of(value.as_str());
    if chars.len() == 0 {
        Ok(())
    } else {
        match url_parse(value.as_str()) {
            None => Ok(()),
            Some(m) => Err(m),
        }
    }
}

/// A character allowed in the name of a `${NAME}` placeholder:
/// ASCII letters and digits, `_` and `-`.
pub open spec fn is_name_char(c: char) -> bool {
    ('a' <= c && c <= 'z') || ('A' <= c && c <= 'Z') || ('0' <= c && c <= '9') || c == '_' || c == '-'
}

fn name_char(c: char) -> (r: bool)
    ensures
        r == is_name_char(c),
{
    ('a' <= c && c <= 'z') || ('A' <= c && c <= 'Z') || ('0' <= c && c <= '9') || c == '_' || c == '-'
}

/// The number of name characters at the start of `s`.
pub open spec fn name_run(s: Seq<char>) -> nat
    decreases s.len(),
{
    if s.len() > 0 && is_name_char(s[0]) {
        1 + name_run(s.drop_first())
    } else {
        0
    }
}

/// The length of the `${NAME}` placeholder that starts `s` (a non-empty
/// name between `${` and `}`), or 0 when `s` does not start with one.
pub open spec fn placeholder_len(s: Seq<char>) -> nat {
    let run = name_run(s.skip(2));
    if s.len() >= 2 && s[0] == '$' && s[1] == '{' && run > 0 && 2 + run < s.len() && s[2 + run as int] == '}' {
        run + 3
    } else {
        0
    }
}

/// The names of the placeholders of `s`, left to right, each found where
/// the previous one ends.
pub open spec fn placeholder_names(s: Seq<char>) -> Seq<Seq<char>>
    decreases s.len(),
{
    if s.len() == 0 {
        Seq::empty()
    } else if placeholder_len(s) > 0 {
        seq![s.subrange(2, placeholder_len(s) - 1)] + placeholder_names(s.skip(placeholder_len(s) as int))
    } else {
        placeholder_names(s.skip(1))
    }
}

/// The value bound to `name`: that of its first binding.
pub open spec fn lookup(values: Seq<(Seq<char>, Seq<char>)>, name: Seq<char>) -> Option<Seq<char>>
    decreases values.len(),
{
    if values.len() == 0 {
        None
    } else if values[0].0 == name {
        Some(values[0].1)
    } else {
        lookup(values.drop_first(), name)
    }
}

/// `s` with each placeholder replaced by the value of its name.
pub open spec fn substituted(s: Seq<char>, values: Seq<(Seq<char>, Seq<char>)>) -> Seq<char>
    decreases s.len(),
{
    if s.len() == 0 {
        Seq::empty()
    } else if placeholder_len(s) > 0 {
        let value = match lookup(values, s.subrange(2, placeholder_len(s) - 1)) {
            Some(v) => v,
            None => Seq::empty(),
        };
        value + substituted(s.skip(placeholder_len(s) as int), values)
    } else {
        seq![s[0]] + substituted(s.skip(1), values)
    }
}

/// Name/value bindings as plain texts.
pub open spec fn bindings_view(values: Seq<(String, String)>) -> Seq<(Seq<char>, Seq<char>)> {
    values.map_values(|p: (String, String)| (p.0@, p.1@))
}

/// Every placeholder of `s` has a binding.
pub open spec fn all_bound(s: Seq<char>, values: Seq<(Seq<char>, Seq<char>)>) -> bool {
    forall|k: int| 0 <= k < placeholder_names(s).len() ==> #[trigger] lookup(values, placeholder_names(s)[k]) is Some
}

proof fn lemma_name_run(s: Seq<char>, k: nat)
    requires
        k <= s.len(),
        forall|m: int| 0 <= m < k ==> is_name_char(#[trigger] s[m]),
        k == s.len() || !is_name_char(s[k as int]),
    ensures
        name_run(s) == k,
    decreases k,
{
    if k > 0 {
        let t = s.drop_first();
        assert forall|m: int| 0 <= m < k - 1 implies is_name_char(#[trigger] t[m]) by {
            assert(t[m] == s[m + 1]);
        }
        lemma_name_run(t, (k - 1) as nat);
    }
}

/// The length of the placeholder that starts at position `i` of `chars`.
fn placeholder_at(chars: &Vec<char>, i: usize) -> (pl: usize)
    requires
        i < chars@.len(),
    ensures
        pl == placeholder_len(chars@.skip(i as int)),
        pl <= chars@.len() - i,
{
    let n = chars.len();
    let ghost s = chars@.skip(i as int);
    if i + 1 < n && chars[i] == '$' && chars[i + 1] == '{' {
        let mut j = i + 2;
        while j < n && name_char(chars[j])
            invariant
                n == chars@.len(),
                i + 2 <= j <= n,
                forall|m: int| i + 2 <= m < j ==> is_name_char(#[trigger] chars@[m]),
            decreases n - j,
        {
            j += 1;
        }
        proof {
            let t = s.skip(2);
            assert(t =~= chars@.skip(i + 2));
            assert forall|m: int| 0 <= m < j - (i + 2) implies is_name_char(#[trigger] t[m]) by {
                assert(t[m] == chars@[m + i + 2]);
            }
            if j < n {
                assert(t[j - (i + 2)] == chars@[j as int]);
            }
            lemma_name_run(t, (j - (i + 2)) as nat);
        }
        if j > i + 2 && j < n && chars[j] == '}' {
            assert(s[2 + (j - (i + 2))] == chars@[j as int]);
            j + 1 - i
        } else {
            proof {
                if j < n {
                    assert(s[2 + (j - (i + 2))] == chars@[j as int]);
                }
            }
            0
        }
    } else {
        0
    }
}

/// The string made of `chars[from..to]`.
fn string_of_range(chars: &Vec<char>, from: usize, to: usize) -> (r: String)
    requires
        from <= to <= chars@.len(),
    ensures
        r@ == chars@.subrange(from as int, to as int),
{
    let mut r = String::new();
    for k in from..to
        invariant
            to <= chars@.len(),
            r@ == chars@.subrange(from as int, k as int),
    {
        push_char(&mut r, chars[k]);
        assert(chars@.subrange(from as int, k + 1) == chars@.subrange(from as int, k as int).push(chars@[k as int]));
    }
    r
}

/// The value bound to `name` in `values`, by its first binding.
pub fn lookup_value<'a>(values: &'a Vec<(String, String)>, name: &String) -> (r: Option<&'a String>)
    ensures
        match r {
            Some(v) => lookup(bindings_view(values@), name@) == Some(v@),
            None => lookup(bindings_view(values@), name@) is None,
        },
{
    let ghost b = bindings_view(values@);
    let n = values.len();
    assert(b.skip(0) =~= b);
    for k in 0..n
        invariant
            n == values@.len(),
            b == bindings_view(values@),
            lookup(b, name@) == lookup(b.skip(k as int), name@),
    {
        let ghost rest = b.skip(k as int);
        assert(rest[0] == (values@[k as int].0@, values@[k as int].1@));
        assert(rest.drop_first() =~= b.skip(k + 1));
        if values[k].0 == *name {
            return Some(&values[k].1);
        }
    }
    assert(b.skip(n as int).len() == 0);
    None
}

/// The names of the `${NAME}` placeholders of `text`, in order.
pub fn placeholder_names_of(text: &String) -> (r: Vec<String>)
    ensures
        r@.map_values(|s: String| s@) == placeholder_names(text@),
{
    let chars = chars_of(text.as_str());
    let n = chars.len();
    let mut names: Vec<String> = Vec::new();
    let mut i: usize = 0;
    assert(chars@.skip(0) =~= chars@);
    assert(names@.map_values(|s: String| s@) + placeholder_names(chars@.skip(0)) =~= placeholder_names(chars@.skip(0)));
    while i < n
        invariant
            n == chars@.len(),
            chars@ == text@,
            i <= n,
            names@.map_values(|s: String| s@) + placeholder_names(chars@.skip(i as int)) == placeholder_names(text@),
        decreases n - i,
    {
        let ghost s = chars@.skip(i as int);
        let pl = placeholder_at(&chars, i);
        if pl > 0 {
            let name = string_of_range(&chars, i + 2, i + pl - 1);
            proof {
                assert(s.subrange(2, pl - 1) =~= chars@.subrange(i + 2, i + pl - 1));
                assert(s.skip(pl as int) =~= chars@.skip(i + pl));
            }
            let ghost before = names@.map_values(|s: String| s@);
            names.push(name);
            assert(names@.map_values(|s: String| s@) =~= before.push(name@));
            i = i + pl;
        } else {
            assert(s.skip(1) =~= chars@.skip(i + 1));
            i = i + 1;
        }
    }
    assert(chars@.skip(n as int).len() == 0);
    assert(names@.map_values(|s: String| s@) + placeholder_names(chars@.skip(n as int)) =~= names@.map_values(|s: String| s@));
    names
}

/// `text` with each `${NAME}` placeholder replaced by the value bound to
/// its name; every placeholder must have a binding.
pub fn resolve_string(text: &String, values: &Vec<(String, String)>) -> (r: String)
    requires
        all_bound(text@, bindings_view(values@)),
    ensures
        r@ == substituted(text@, bindings_view(values@)),
{
    let ghost b = bindings_view(values@);
    let chars = chars_of(text.as_str());
    let n = chars.len();
    let mut out = String::new();
    let mut i: usize = 0;
    assert(chars@.skip(0) =~= chars@);
    assert(out@ + substituted(chars@.skip(0), b) =~= substituted(chars@.skip(0), b));
    while i < n
        invariant
            n == chars@.len(),
            chars@ == text@,
            b == bindings_view(values@),
            i <= n,
            all_bound(chars@.skip(i as int), b),
            out@ + substituted(chars@.skip(i as int), b) == substituted(text@, b),
        decreases n - i,
    {
        let ghost s = chars@.skip(i as int);
        let pl = placeholder_at(&chars, i);
        if pl > 0 {
            let name = string_of_range(&chars, i + 2, i + pl - 1);
            proof {
                assert(s.subrange(2, pl - 1) =~= chars@.subrange(i + 2, i + pl - 1));
                assert(s.skip(pl as int) =~= chars@.skip(i + pl));
                assert(placeholder_names(s)[0] == name@);
                assert(lookup(b, placeholder_names(s)[0]) is Some);
                let rest = s.skip(pl as int);
                assert forall|k: int| 0 <= k < placeholder_names(rest).len() implies #[trigger] lookup(b, placeholder_names(rest)[k]) is Some by {
                    assert(placeholder_names(s)[k + 1] == placeholder_names(rest)[k]);
                }
            }
            match lookup_value(values, &name) {
                Some(v) => {
                    let ghost before = out@;
                    out.append(v.as_str());
                    assert(out@ + substituted(chars@.skip(i + pl), b) =~= before + substituted(s, b));
                },
                None => {
                    assert(false);
                },
            }
            i = i + pl;
        } else {
            proof {
                assert(s.skip(1) =~= chars@.skip(i + 1));
                let rest = s.skip(1);
                assert forall|k: int| 0 <= k < placeholder_names(rest).len() implies #[trigger] lookup(b, placeholder_names(rest)[k]) is Some by {
                    assert(placeholder_names(s)[k] == placeholder_names(rest)[k]);
                }
            }
            let ghost before = out@;
            push_char(&mut out, chars[i]);
            assert(s[0] == chars@[i as int]);
            assert(out@ + substituted(chars@.skip(i + 1), b) =~= before + substituted(s, b));
            i = i + 1;
        }
    }
    assert(chars@.skip(n as int).len() == 0);
    assert(out@ + substituted(chars@.skip(n as int), b) =~= out@);
    out
}

/// A map from names to values that holds each name once; inserting a name
/// that is present replaces its value.
pub struct NamedMap<T> {
    entries: Vec<(String, T)>,
}

/// The entries hold each name at most once.
pub open spec fn distinct_names<T>(entries: Seq<(String, T)>) -> bool {
    forall|i: int, j: int| 0 <= i < j < entries.len() ==> entries[i].0@ != entries[j].0@
}

/// Some entry carries the name `k`.
pub open spec fn has_name<T>(entries: Seq<(String, T)>, k: Seq<char>) -> bool {
    exists|i: int| 0 <= i < entries.len() && #[trigger] entries[i].0@ == k
}

/// The map that a list of entries with distinct names stands for.
pub open spec fn entries_map<T>(entries: Seq<(String, T)>) -> Map<Seq<char>, T> {
    Map::new(
        |k: Seq<char>| has_name(entries, k),
        |k: Seq<char>| entries[choose|i: int| 0 <= i < entries.len() && #[trigger] entries[i].0@ == k].1,
    )
}

proof fn lemma_entry_value<T>(entries: Seq<(String, T)>, i: int)
    requires
        distinct_names(entries),
        0 <= i < entries.len(),
    ensures
        entries_map(entries).contains_key(entries[i].0@),
        entries_map(entries)[entries[i].0@] == entries[i].1,
{
    let k = entries[i].0@;
    assert(has_name(entries, k));
    let j = choose|j: int| 0 <= j < entries.len() && #[trigger] entries[j].0@ == k;
    if j != i {
        if j < i {
            assert(entries[j].0@ != entries[i].0@);
        } else {
            assert(entries[i].0@ != entries[j].0@);
        }
    }
}

impl<T> View for NamedMap<T> {
    type V = Map<Seq<char>, T>;

    closed spec fn view(&self) -> Map<Seq<char>, T> {
        entries_map(self.entries@)
    }
}

impl<T> NamedMap<T> {
    #[verifier::type_invariant]
    spec fn names_distinct(self) -> bool {
        distinct_names(self.entries@)
    }

    /// The empty map.
    pub fn new() -> (r: Self)
        ensures
            r@ == Map::<Seq<char>, T>::empty(),
    {
        let r = NamedMap { entries: Vec::new() };
        assert(r@ =~= Map::<Seq<char>, T>::empty());
        r
    }

    /// The position of the entry named `key`, if any.
    fn position(&self, key: &String) -> (r: Option<usize>)
        ensures
            match r {
                Some(i) => i < self.entries@.len() && self.entries@[i as int].0@ == key@,
                None => !has_name(self.entries@, key@),
            },
    {
        let n = self.entries.len();
        for i in 0..n
            invariant
                n == self.entries@.len(),
                forall|j: int| 0 <= j < i ==> self.entries@[j].0@ != key@,
        {
            if self.entries[i].0 == *key {
                return Some(i);
            }
        }
        None
    }

    /// Binds `key` to `value`, replacing the value it had.
    pub fn insert(&mut self, key: String, value: T)
        ensures
            final(self)@ == old(self)@.insert(key@, value),
    {
        proof {
            use_type_invariant(&*self);
        }
        let ghost old_entries = self.entries@;
        let pos = self.position(&key);
        let mut entries: Vec<(String, T)> = Vec::new();
        std::mem::swap(&mut entries, &mut self.entries);
        let ghost k = key@;
        match pos {
            Some(i) => {
                entries.set(i, (key, value));
                proof {
                    let e = entries@;
                    assert(distinct_names(e)) by {
                        assert forall|a: int, b: int| 0 <= a < b < e.len() implies e[a].0@ != e[b].0@ by {
                            if a != i && b != i {
                                assert(e[a] == old_entries[a] && e[b] == old_entries[b]);
                            } else if a == i {
                                assert(e[b] == old_entries[b]);
                            } else {
                                assert(e[a] == old_entries[a]);
                            }
                        }
                    }
                    assert(entries_map(e) =~= entries_map(old_entries).insert(k, value)) by {
                        assert forall|x: Seq<char>| #[trigger] has_name(e, x) == (has_name(old_entries, x) || x == k) by {
                            if has_name(old_entries, x) {
                                let j = choose|j: int| 0 <= j < old_entries.len() && #[trigger] old_entries[j].0@ == x;
                                if j != i {
                                    assert(e[j].0@ == x);
                                } else {
                                    assert(e[i as int].0@ == x);
                                }
                            }
                            if x == k {
                                assert(e[i as int].0@ == x);
                            }
                            if has_name(e, x) {
                                let j = choose|j: int| 0 <= j < e.len() && #[trigger] e[j].0@ == x;
                                if j != i {
                                    assert(old_entries[j].0@ == x);
                                }
                            }
                        }
                        assert forall|x: Seq<char>| #[trigger] has_name(e, x) implies entries_map(e)[x] == entries_map(old_entries).insert(k, value)[x] by {
                            let j = choose|j: int| 0 <= j < e.len() && #[trigger] e[j].0@ == x;
                            lemma_entry_value(e, j);
                            if j != i {
                                assert(old_entries[j] == e[j]);
                                lemma_entry_value(old_entries, j);
                            }
                        }
                    }
                }
            },
            None => {
                entries.push((key, value));
                proof {
                    let e = entries@;
                    let n = old_entries.len() as int;
                    assert(distinct_names(e)) by {
                        assert forall|a: int, b: int| 0 <= a < b < e.len() implies e[a].0@ != e[b].0@ by {
                            assert(e[a] == old_entries[a]);
                            if b < n {
                                assert(e[b] == old_entries[b]);
                            }
                        }
                    }
                    assert(entries_map(e) =~= entries_map(old_entries).insert(k, value)) by {
                        assert forall|x: Seq<char>| #[trigger] has_name(e, x) == (has_name(old_entries, x) || x == k) by {
                            if has_name(old_entries, x) {
                                let j = choose|j: int| 0 <= j < old_entries.len() && #[trigger] old_entries[j].0@ == x;
                                assert(e[j].0@ == x);
                            }
                            if x == k {
                                assert(e[n].0@ == x);
                            }
                            if has_name(e, x) {
                                let j = choose|j: int| 0 <= j < e.len() && #[trigger] e[j].0@ == x;
                                if j < n {
                                    assert(old_entries[j].0@ == x);
                                }
                            }
                        }
                        assert forall|x: Seq<char>| #[trigger] has_name(e, x) implies entries_map(e)[x] == entries_map(old_entries).insert(k, value)[x] by {
                            let j = choose|j: int| 0 <= j < e.len() && #[trigger] e[j].0@ == x;
                            lemma_entry_value(e, j);
                            if j < n {
                                assert(old_entries[j] == e[j]);
                                lemma_entry_value(old_entries, j);
                            }
                        }
                    }
                }
            },
        }
        self.entries = entries;
    }

    /// The value bound to `key`, if any.
    pub fn get(&self, key: &String) -> (r: Option<&T>)
        ensures
            match r {
                Some(v) => self@.contains_key(key@) && self@[key@] == *v,
                None => !self@.contains_key(key@),
            },
    {
        proof {
            use_type_invariant(self);
        }
        match self.position(key) {
            Some(i) => {
                proof {
                    lemma_entry_value(self.entries@, i as int);
                }
                Some(&self.entries[i].1)
            },
            None => None,
        }
    }

    /// The entries, each name once (in an order this contract leaves open).
    pub fn entries(&self) -> (v: &Vec<(String, T)>)
        ensures
            distinct_names(v@),
            entries_map(v@) == self@,
    {
        proof {
            use_type_invariant(self);
        }
        &self.entries
    }

    /// The entries, each name once (in an order this contract leaves open).
    pub fn into_entries(self) -> (v: Vec<(String, T)>)
        ensures
            distinct_names(v@),
            entries_map(v@) == self@,
    {
        proof {
            use_type_invariant(&self);
        }
        self.entries
    }
}

/// Everything the configuration directory holds: the targets by name and
/// the merged `_common` section.
pub struct ProgramSettings {
    pub monitor_targets: NamedMap<MonitorTarget>,
    pub common_settings: CommonSettings,
}

/// What a top-level key of a configuration file introduces.
#[derive(Copy, Clone, Debug, PartialEq, Eq)]
pub enum SectionKind {
    /// The `_common` section, whose entries are merged across files.
    Common,
    /// A monitor target named by the key.
    Target,
}

/// The section a top-level key introduces: `_common`, or a target.
pub fn section_kind(key: &str) -> (r: SectionKind)
    ensures
        (r == SectionKind::Common) == (key@ == "_common"@),
{
    if crate::text::str_eq(key, "_common") {
        SectionKind::Common
    } else {
        SectionKind::Target
    }
}

/// The shape of a configuration file's top level.
#[derive(Copy, Clone, Debug, PartialEq, Eq)]
pub enum DocumentShape {
    Mapping,
    Empty,
    Other,
}

/// The notice written for a file that holds no mapping at its top level.
pub fn document_notice(path: &str, shape: DocumentShape) -> (r: Option<String>)
    ensures
        shape == DocumentShape::Mapping ==> r is None,
        shape == DocumentShape::Empty ==> (r matches Some(m) && m@ == path@ + " is empty."@),
        shape == DocumentShape::Other ==> (r matches Some(m) && m@ == "Unsupported data type at root level in "@ + path@),
{
    match shape {
        DocumentShape::Mapping => None,
        DocumentShape::Empty => {
            let mut m = String::from_str(path);
            m.append(" is empty.");
            Some(m)
        },
        DocumentShape::Other => {
            let mut m = String::from_str("Unsupported data type at root level in ");
            m.append(path);
            Some(m)
        },
    }
}

/// The error for a file that does not parse.
pub fn load_failure_message(path: &str, err: &str) -> (r: String)
    ensures
        r@ == "Failed to load "@ + path@ + ": "@ + err@,
{
    let mut m = String::from_str("Failed to load ");
    m.append(path);
    m.append(": ");
    m.append(err);
    m
}

/// `m` after inserting each entry of `values` in turn.
pub open spec fn insert_all<C>(m: Map<Seq<char>, C>, values: Seq<(String, C)>) -> Map<Seq<char>, C>
    decreases values.len(),
{
    if values.len() == 0 {
        m
    } else {
        insert_all(m.insert(values[0].0@, values[0].1), values.drop_first())
    }
}

/// The targets and `_common` entries read so far from the configuration
/// files; a later file's entry replaces an earlier one of the same name.
pub struct ConfigMerger<C> {
    pub monitor_targets: NamedMap<MonitorTarget>,
    pub common_values: NamedMap<C>,
}

impl<C> ConfigMerger<C> {
    /// Nothing read yet.
    pub fn new() -> (r: Self)
        ensures
            r.monitor_targets@ == Map::<Seq<char>, MonitorTarget>::empty(),
            r.common_values@ == Map::<Seq<char>, C>::empty(),
    {
        ConfigMerger { monitor_targets: NamedMap::new(), common_values: NamedMap::new() }
    }

    /// Records the target `name`.
    pub fn add_target(&mut self, name: String, target: MonitorTarget)
        ensures
            final(self).monitor_targets@ == old(self).monitor_targets@.insert(name@, target),
            final(self).common_values@ == old(self).common_values@,
    {
        self.monitor_targets.insert(name, target);
    }

    /// Merges the entries of one `_common` section.
    pub fn add_common_values(&mut self, values: Vec<(String, C)>)
        ensures
            final(self).common_values@ == insert_all(old(self).common_values@, values@),
            final(self).monitor_targets@ == old(self).monitor_targets@,
    {
        let mut rest = values;
        while rest.len() > 0
            invariant
                insert_all(self.common_values@, rest@) == insert_all(old(self).common_values@, values@),
                self.monitor_targets@ == old(self).monitor_targets@,
            decreases rest@.len(),
        {
            let ghost before = rest@;
            let (k, v) = rest.remove(0);
            assert(rest@ =~= before.drop_first());
            self.common_values.insert(k, v);
        }
    }
}

#[verifier::external_type_specification]
#[verifier::external_body]
pub struct ExJsonValue(serde_json::Value);

/// What `serde_saphyr::from_str::<serde_json::Value>` gives for a text:
/// `None` when it loads, else the text of its error.
pub uninterp spec fn yaml_load_error(text: Seq<char>) -> Option<Seq<char>>;

/// The document `serde_saphyr::from_str::<serde_json::Value>` loads from a
/// text that loads.
pub uninterp spec fn yaml_value(text: Seq<char>) -> serde_json::Value;

/// Calls `serde_saphyr::from_str` to load a YAML text as a
/// `serde_json::Value`, keeping the error as its text (`to_string`).
/// Claimed: whether it loads, the error's text and the value loaded are
/// those named by `yaml_load_error` and `yaml_value`, which depend on the
/// text alone.
#[verifier::external_body]
fn parse_yaml_value(text: &str) -> (r: Result<serde_json::Value, String>)
    ensures
        r is Ok <==> yaml_load_error(text@) is None,
        r matches Ok(v) ==> v == yaml_value(text@),
        r matches Err(m) ==> yaml_load_error(text@) == Some(m@),
{
    match serde_saphyr::from_str::<serde_json::Value>(text) {
        Ok(v) => Ok(v),
        Err(e) => Err(e.to_string()),
    }
}

/// Loads the text of the configuration file at `path` as YAML; a text that
/// does not load gives the error that stops the program.
pub fn load_document_text(path: &str, text: &str) -> (r: Result<serde_json::Value, String>)
    ensures
        r is Ok <==> yaml_load_error(text@) is None,
        r matches Ok(v) ==> v == yaml_value(text@),
        r matches Err(m) ==> m@ == "Failed to load "@ + path@ + ": "@ + yaml_load_error(text@)->0,
{
    match parse_yaml_value(text) {
        Ok(v) => Ok(v),
        Err(e) => Err(load_failure_message(path, e.as_str())),
    }
}

/// A top-level entry of a configuration file, once read.
pub enum Section<C> {
    /// The `_common` section: its entries when it is a mapping, else
    /// `None`.
    Common(Option<Vec<(String, C)>>),
    /// A target.
    Target(MonitorTarget),
}

/// The top level of a configuration file.
pub enum ConfigDocument<C> {
    /// A mapping: its entries, in order.
    Mapping(Vec<(String, Section<C>)>),
    /// Nothing.
    Empty,
    /// Anything else.
    Other,
}

/// The targets and `_common` settings after merging `entries` in turn into
/// `targets` and `common`: a target entry binds its name, a `_common`
/// mapping merges its entries, any other `_common` value is ignored.
pub open spec fn merge_sections<C>(
    targets: Map<Seq<char>, MonitorTarget>,
    common: Map<Seq<char>, C>,
    entries: Seq<(String, Section<C>)>,
) -> (Map<Seq<char>, MonitorTarget>, Map<Seq<char>, C>)
    decreases entries.len(),
{
    if entries.len() == 0 {
        (targets, common)
    } else {
        let rest = entries.drop_first();
        match entries[0].1 {
            Section::Target(t) => merge_sections(targets.insert(entries[0].0@, t), common, rest),
            Section::Common(Some(values)) => merge_sections(targets, insert_all(common, values@), rest),
            Section::Common(None) => merge_sections(targets, common, rest),
        }
    }
}

/// The shape of a document's top level.
pub open spec fn document_shape<C>(doc: ConfigDocument<C>) -> DocumentShape {
    match doc {
        ConfigDocument::Mapping(_) => DocumentShape::Mapping,
        ConfigDocument::Empty => DocumentShape::Empty,
        ConfigDocument::Other => DocumentShape::Other,
    }
}

impl<C> ConfigMerger<C> {
    /// Merges the sections of one mapping, in order.
    pub fn add_sections(&mut self, entries: Vec<(String, Section<C>)>)
        ensures
            (final(self).monitor_targets@, final(self).common_values@)
                == merge_sections(old(self).monitor_targets@, old(self).common_values@, entries@),
    {
        let mut rest = entries;
        while rest.len() > 0
            invariant
                merge_sections(self.monitor_targets@, self.common_values@, rest@)
                    == merge_sections(old(self).monitor_targets@, old(self).common_values@, entries@),
            decreases rest@.len(),
        {
            let ghost before = rest@;
            let (name, section) = rest.remove(0);
            assert(rest@ =~= before.drop_first());
            match section {
                Section::Target(t) => self.add_target(name, t),
                Section::Common(Some(values)) => self.add_common_values(values),
                Section::Common(None) => {},
            }
        }
    }

    /// Merges one configuration file found at `path`; returns the notice
    /// to write for a file without a mapping at its top level.
    pub fn add_document(&mut self, path: &str, doc: ConfigDocument<C>) -> (notice: Option<String>)
        ensures
            match doc {
                ConfigDocument::Mapping(entries) => (final(self).monitor_targets@, final(self).common_values@)
                    == merge_sections(old(self).monitor_targets@, old(self).common_values@, entries@),
                _ => final(self).monitor_targets@ == old(self).monitor_targets@
                    && final(self).common_values@ == old(self).common_values@,
            },
            document_shape(doc) == DocumentShape::Mapping ==> notice is None,
            document_shape(doc) == DocumentShape::Empty ==> (notice matches Some(m) && m@ == path@ + " is empty."@),
            document_shape(doc) == DocumentShape::Other ==> (notice matches Some(m) && m@ == "Unsupported data type at root level in "@ + path@),
    {
        match doc {
            ConfigDocument::Mapping(entries) => {
                self.add_sections(entries);
                None
            },
            ConfigDocument::Empty => document_notice(path, DocumentShape::Empty),
            ConfigDocument::Other => document_notice(path, DocumentShape::Other),
        }
    }
}

/// Merging a `_common` section keeps every earlier setting that the
/// section does not name.
pub proof fn law_merge_keeps_unnamed<C>(m: Map<Seq<char>, C>, values: Seq<(String, C)>, k: Seq<char>)
    requires
        forall|i: int| 0 <= i < values.len() ==> #[trigger] values[i].0@ != k,
    ensures
        insert_all(m, values).contains_key(k) == m.contains_key(k),
        m.contains_key(k) ==> insert_all(m, values)[k] == m[k],
    decreases values.len(),
{
    if values.len() > 0 {
        let rest = values.drop_first();
        assert(values[0].0@ != k);
        assert forall|i: int| 0 <= i < rest.len() implies #[trigger] rest[i].0@ != k by {
            assert(rest[i] == values[i + 1]);
        }
        law_merge_keeps_unnamed(m.insert(values[0].0@, values[0].1), rest, k);
    }
}

/// Merging a `_common` section sets each setting it names to the value of
/// the last entry that names it.
pub proof fn law_merge_last_entry_wins<C>(m: Map<Seq<char>, C>, values: Seq<(String, C)>, i: int)
    requires
        0 <= i < values.len(),
        forall|j: int| i < j < values.len() ==> #[trigger] values[j].0@ != values[i].0@,
    ensures
        insert_all(m, values).contains_key(values[i].0@),
        insert_all(m, values)[values[i].0@] == values[i].1,
    decreases values.len(),
{
    let rest = values.drop_first();
    let k = values[i].0@;
    if i == 0 {
        assert forall|j: int| 0 <= j < rest.len() implies #[trigger] rest[j].0@ != k by {
            assert(rest[j] == values[j + 1]);
        }
        law_merge_keeps_unnamed(m.insert(k, values[0].1), rest, k);
    } else {
        assert(rest[i - 1] == values[i]);
        assert forall|j: int| i - 1 < j < rest.len() implies #[trigger] rest[j].0@ != rest[i - 1].0@ by {
            assert(rest[j] == values[j + 1]);
        }
        law_merge_last_entry_wins(m.insert(values[0].0@, values[0].1), rest, i - 1);
    }
}

/// A text without placeholders is left as it is.
pub proof fn law_no_placeholder_unchanged(s: Seq<char>, values: Seq<(Seq<char>, Seq<char>)>)
    requires
        placeholder_names(s).len() == 0,
    ensures
        substituted(s, values) == s,
    decreases s.len(),
{
    if s.len() > 0 {
        if placeholder_len(s) > 0 {
            assert(placeholder_names(s).len() > 0);
        } else {
            law_no_placeholder_unchanged(s.skip(1), values);
            assert(seq![s[0]] + s.skip(1) =~= s);
        }
    }
}

proof fn lemma_lookup_finds(values: Seq<(Seq<char>, Seq<char>)>, i: int)
    requires
        0 <= i < values.len(),
    ensures
        lookup(values, values[i].0) is Some,
    decreases values.len(),
{
    if values[0].0 != values[i].0 {
        assert(values.drop_first()[i - 1] == values[i]);
        lemma_lookup_finds(values.drop_first(), i - 1);
    }
}

/// Giving each listed placeholder name a value, in order, makes the text
/// resolvable: every placeholder then has a binding.
pub proof fn law_listed_names_resolve(s: Seq<char>, vals: Seq<Seq<char>>)
    requires
        vals.len() == placeholder_names(s).len(),
    ensures
        all_bound(s, Seq::new(vals.len(), |k: int| (placeholder_names(s)[k], vals[k]))),
{
    let b = Seq::new(vals.len(), |k: int| (placeholder_names(s)[k], vals[k]));
    assert forall|k: int| 0 <= k < placeholder_names(s).len() implies #[trigger] lookup(b, placeholder_names(s)[k]) is Some by {
        assert(b[k].0 == placeholder_names(s)[k]);
        lemma_lookup_finds(b, k);
    }
}

/// Substitution copies a character that does not start a placeholder and
/// goes on substituting in the rest of the text: a `$` is the only
/// character that can begin a placeholder, so any other character, a line
/// break among them, passes through.
pub proof fn law_plain_char_passes_through(c: char, s: Seq<char>, values: Seq<(Seq<char>, Seq<char>)>)
    requires
        c != '$',
    ensures
        substituted(seq![c] + s, values) == seq![c] + substituted(s, values),
        placeholder_names(seq![c] + s) == placeholder_names(s),
{
    let t = seq![c] + s;
    assert(t[0] == c);
    assert(placeholder_len(t) == 0);
    assert(t.skip(1) =~= s);
}

/// A placeholder `${NAME}` with a bound name is replaced by its value, and
/// substitution goes on after it.
pub proof fn law_placeholder_replaced(name: Seq<char>, s: Seq<char>, values: Seq<(Seq<char>, Seq<char>)>)
    requires
        name.len() > 0,
        forall|i: int| 0 <= i < name.len() ==> is_name_char(#[trigger] name[i]),
        lookup(values, name) is Some,
    ensures
        substituted(seq!['$', '{'] + name + seq!['}'] + s, values) == lookup(values, name)->0 + substituted(s, values),
        placeholder_names(seq!['$', '{'] + name + seq!['}'] + s) == seq![name] + placeholder_names(s),
{
    let t = seq!['$', '{'] + name + seq!['}'] + s;
    let u = t.skip(2);
    assert(u =~= name + seq!['}'] + s);
    assert forall|m: int| 0 <= m < name.len() implies is_name_char(#[trigger] u[m]) by {
        assert(u[m] == name[m]);
    }
    assert(u[name.len() as int] == '}');
    lemma_name_run(u, name.len());
    assert(t[2 + name.len() as int] == '}');
    assert(placeholder_len(t) == name.len() + 3);
    assert(t.subrange(2, name.len() as int + 2) =~= name);
    assert(t.skip(name.len() as int + 3) =~= s);
}

/// A host name is one label, or host names joined by `.`; a label is any
/// non-empty run of label characters (letters and digits in any position,
/// and `-`).
pub proof fn law_hostname_labels(label: Seq<char>, a: Seq<char>, b: Seq<char>)
    ensures
        (label.len() > 0 && forall|i: int| 0 <= i < label.len() ==> #[trigger] label[i] != '.' && is_label_char(label[i]))
            ==> is_hostname(label),
        (is_hostname(a) && is_hostname(b)) ==> is_hostname(a + seq!['.'] + b),
        is_hostname(a) ==> forall|i: int| 0 <= i < a.len() ==> #[trigger] a[i] == '.' || is_label_char(a[i]),
{
    if is_hostname(a) && is_hostname(b) {
        let j = a + seq!['.'] + b;
        let na = a.len() as int;
        assert(j[0] == a[0]);
        assert(j[j.len() - 1] == b[b.len() - 1]);
        assert forall|i: int| 0 <= i < j.len() - 1 && #[trigger] j[i] == '.' implies j[i + 1] != '.' by {
            if i < na - 1 {
                assert(j[i] == a[i] && j[i + 1] == a[i + 1]);
            } else if i == na - 1 {
                assert(j[i] == a[na - 1]);
            } else if i == na {
                assert(j[i + 1] == b[0]);
            } else {
                assert(j[i] == b[i - na - 1] && j[i + 1] == b[i - na]);
            }
        }
        assert forall|i: int| 0 <= i < j.len() && j[i] != '.' implies is_label_char(j[i]) by {
            if i < na {
                assert(j[i] == a[i]);
            } else if i > na {
                assert(j[i] == b[i - na - 1]);
            }
        }
    }
}

} // verus!
