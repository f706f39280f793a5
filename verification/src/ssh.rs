//! Saved SSH hosts: the `ssh` command line for a host, its display string,
//! merging hosts found twice, and reading hosts from the text of an
//! `~/.ssh/config` file.

use vstd::prelude::*;
use crate::text::{
    append_str, chars_of, chars_eq, chars_eq_ignore_ascii_case, decimal, eq_ignore_ascii_case,
    join_chars, join_with, parse_unsigned, parse_unsigned_range, push_char, split_chars, split_on,
    split_whitespace_chars, string_from_chars, string_views, trim, trim_chars, u64_to_decimal,
    ws_words, lemma_trim_first, lemma_ws_words_first,
};

verus! {

/// SSH settings.
#[derive(Debug, Clone)]
pub struct SshConfig {
    /// Saved SSH hosts
    pub hosts: Vec<SshHost>,
    /// Import from ~/.ssh/config automatically
    pub auto_import: bool,
    /// Default port
    pub default_port: u16,
    /// Merge tags and aliases on import
    pub merge_imports: bool,
}

impl Default for SshConfig {
    fn default() -> (c: Self)
        ensures
            c.hosts@.len() == 0,
            c.auto_import,
            c.default_port == 22,
            c.merge_imports,
    {
        SshConfig { hosts: Vec::new(), auto_import: true, default_port: 22, merge_imports: true }
    }
}

/// A saved SSH host.
#[derive(Debug, Clone, PartialEq, Eq)]
pub struct SshHost {
    /// Display name for this connection
    pub name: String,
    /// Host name or IP address
    pub hostname: String,
    /// SSH port (default: 22)
    pub port: u16,
    /// User name for login
    pub username: Option<String>,
    /// Path of the identity file (private key)
    pub identity_file: Option<String>,
    /// Additional SSH options
    pub options: Vec<String>,
    /// Tags for organization
    pub tags: Vec<String>,
    /// Favorite host
    pub favorite: bool,
}

/// The value of an `SshHost`.
pub struct SshHostView {
    pub name: Seq<char>,
    pub hostname: Seq<char>,
    pub port: u16,
    pub username: Option<Seq<char>>,
    pub identity_file: Option<Seq<char>>,
    pub options: Seq<Seq<char>>,
    pub tags: Seq<Seq<char>>,
    pub favorite: bool,
}

/// The view of an optional string.
pub open spec fn opt_view(o: Option<String>) -> Option<Seq<char>> {
    match o {
        Some(s) => Some(s@),
        None => None,
    }
}

impl View for SshHost {
    type V = SshHostView;

    open spec fn view(&self) -> SshHostView {
        SshHostView {
            name: self.name@,
            hostname: self.hostname@,
            port: self.port,
            username: opt_view(self.username),
            identity_file: opt_view(self.identity_file),
            options: string_views(self.options@),
            tags: string_views(self.tags@),
            favorite: self.favorite,
        }
    }
}

/// The host argument of the `ssh` command: `user@host`, or the host alone.
pub open spec fn ssh_target(h: SshHostView) -> Seq<char> {
    match h.username {
        Some(u) => u + "@"@ + h.hostname,
        None => h.hostname,
    }
}

/// The `ssh` command line for a host: `ssh`, `-p <port>` unless the port is
/// 22, `-i <identity file>` if there is one, the options, and the target.
pub open spec fn ssh_command(h: SshHostView) -> Seq<Seq<char>> {
    let a = seq!["ssh"@];
    let b = if h.port != 22 {
        a + seq!["-p"@, decimal(h.port as nat)]
    } else {
        a
    };
    let c = match h.identity_file {
        Some(p) => b + seq!["-i"@, p],
        None => b,
    };
    (c + h.options).push(ssh_target(h))
}

/// How a host is shown: `user@host:port`, or `host:port`.
pub open spec fn host_display(h: SshHostView) -> Seq<char> {
    match h.username {
        Some(u) => u + "@"@ + h.hostname + ":"@ + decimal(h.port as nat),
        None => h.hostname + ":"@ + decimal(h.port as nat),
    }
}

/// `items` with each of `more` appended that `present` does not find
/// among what is there by then.
pub open spec fn merge_list(
    items: Seq<Seq<char>>,
    more: Seq<Seq<char>>,
    same: spec_fn(Seq<char>, Seq<char>) -> bool,
) -> Seq<Seq<char>>
    decreases more.len(),
{
    if more.len() == 0 {
        items
    } else {
        let m = merge_list(items, more.drop_last(), same);
        if exists|i: int| 0 <= i < m.len() && same(#[trigger] m[i], more.last()) {
            m
        } else {
            m.push(more.last())
        }
    }
}

/// Appends to `items` each of `more` that `same` (case-insensitive or
/// exact) does not find among what is there by then.
fn merge_strings(items: &mut Vec<String>, more: &Vec<String>, ignore_case: bool)
    ensures
        string_views(final(items)@) == merge_list(
            string_views(old(items)@),
            string_views(more@),
            if ignore_case {
                |a: Seq<char>, b: Seq<char>| eq_ignore_ascii_case(a, b)
            } else {
                |a: Seq<char>, b: Seq<char>| a == b
            },
        ),
{
    let ghost same = if ignore_case {
        |a: Seq<char>, b: Seq<char>| eq_ignore_ascii_case(a, b)
    } else {
        |a: Seq<char>, b: Seq<char>| a == b
    };
    let ghost start = string_views(items@);
    let ghost mv = string_views(more@);
    let mut k: usize = 0;
    while k < more.len()
        invariant
            k <= more@.len(),
            mv == string_views(more@),
            same == (if ignore_case {
                |a: Seq<char>, b: Seq<char>| eq_ignore_ascii_case(a, b)
            } else {
                |a: Seq<char>, b: Seq<char>| a == b
            }),
            string_views(items@) == merge_list(start, mv.take(k as int), same),
        decreases more@.len() - k,
    {
        let cand = chars_of(more[k].as_str());
        let ghost cur = string_views(items@);
        let mut found = false;
        let mut i: usize = 0;
        while i < items.len()
            invariant
                i <= items@.len(),
                cur == string_views(items@),
                cand@ == more@[k as int]@,
                same == (if ignore_case {
                    |a: Seq<char>, b: Seq<char>| eq_ignore_ascii_case(a, b)
                } else {
                    |a: Seq<char>, b: Seq<char>| a == b
                }),
                found == exists|j: int| 0 <= j < i && same(#[trigger] cur[j], cand@),
            decreases items@.len() - i,
        {
            let have = chars_of(items[i].as_str());
            let m = if ignore_case {
                chars_eq_ignore_ascii_case(have.as_slice(), cand.as_slice())
            } else {
                chars_eq(have.as_slice(), cand.as_slice())
            };
            assert(cur[i as int] == have@);
            if m {
                found = true;
            }
            i = i + 1;
        }
        proof {
            assert(mv.take(k + 1).drop_last() =~= mv.take(k as int));
            assert(mv.take(k + 1).last() == cand@);
        }
        if !found {
            items.push(more[k].clone());
            assert(string_views(items@) =~= cur.push(cand@));
        }
        k = k + 1;
    }
    assert(mv.take(more@.len() as int) =~= mv);
}

/// A copy of an optional string.
fn clone_opt(o: &Option<String>) -> (r: Option<String>)
    ensures
        opt_view(r) == opt_view(*o),
{
    match o {
        Some(s) => Some(s.clone()),
        None => None,
    }
}

impl SshHost {
    /// The `ssh` command line for this host, one argument per string.
    pub fn build_command(&self) -> (cmd: Vec<String>)
        ensures
            string_views(cmd@) == ssh_command(self@),
    {
        let ghost h = self@;
        let mut cmd: Vec<String> = Vec::new();
        cmd.push("ssh".to_owned());
        assert(string_views(cmd@) =~= seq!["ssh"@]);
        if self.port != 22 {
            cmd.push("-p".to_owned());
            cmd.push(u64_to_decimal(self.port as u64));
            assert(string_views(cmd@) =~= seq!["ssh"@] + seq!["-p"@, decimal(h.port as nat)]);
        }
        let ghost b = string_views(cmd@);
        match &self.identity_file {
            Some(identity) => {
                cmd.push("-i".to_owned());
                cmd.push(identity.clone());
                assert(string_views(cmd@) =~= b + seq!["-i"@, identity@]);
            },
            None => {},
        }
        let ghost head = string_views(cmd@);
        let mut i: usize = 0;
        while i < self.options.len()
            invariant
                i <= self.options@.len(),
                string_views(cmd@) == head + string_views(self.options@).take(i as int),
            decreases self.options@.len() - i,
        {
            let ghost before = cmd@;
            cmd.push(self.options[i].clone());
            assert(string_views(cmd@) =~= string_views(before).push(self.options@[i as int]@));
            assert(string_views(self.options@).take(i + 1) =~= string_views(self.options@).take(
                i as int,
            ).push(self.options@[i as int]@));
            assert(string_views(cmd@) =~= head + string_views(self.options@).take(i + 1));
            i = i + 1;
        }
        assert(string_views(self.options@).take(self.options@.len() as int) =~= string_views(
            self.options@,
        ));
        let target = match &self.username {
            Some(user) => {
                let mut t = user.clone();
                push_char(&mut t, '@');
                append_str(&mut t, self.hostname.as_str());
                proof {
                    reveal_strlit("@");
                }
                assert(t@ =~= user@ + "@"@ + self.hostname@);
                t
            },
            None => self.hostname.clone(),
        };
        cmd.push(target);
        proof {
            assert(string_views(cmd@) =~= ssh_command(self@));
        }
        cmd
    }

    /// How this host is shown: `user@host:port`, or `host:port`.
    pub fn display_string(&self) -> (s: String)
        ensures
            s@ == host_display(self@),
    {
        let port = u64_to_decimal(self.port as u64);
        proof {
            reveal_strlit("@");
            reveal_strlit(":");
        }
        match &self.username {
            Some(user) => {
                let mut t = user.clone();
                push_char(&mut t, '@');
                append_str(&mut t, self.hostname.as_str());
                push_char(&mut t, ':');
                append_str(&mut t, port.as_str());
                assert(t@ =~= host_display(self@));
                t
            },
            None => {
                let mut t = self.hostname.clone();
                push_char(&mut t, ':');
                append_str(&mut t, port.as_str());
                assert(t@ =~= host_display(self@));
                t
            },
        }
    }

    /// Takes in what `other` knows of the same host: its tags not yet
    /// present (ignoring ASCII case), its options not yet present, its
    /// identity file where this host has none, and its favorite flag.
    pub fn merge_from(&mut self, other: &SshHost)
        ensures
            final(self)@.tags == merge_list(
                old(self)@.tags,
                other@.tags,
                |a: Seq<char>, b: Seq<char>| eq_ignore_ascii_case(a, b),
            ),
            final(self)@.options == merge_list(old(self)@.options, other@.options, |a: Seq<char>, b: Seq<char>| a == b),
            final(self)@.identity_file == if old(self)@.identity_file is None {
                other@.identity_file
            } else {
                old(self)@.identity_file
            },
            final(self)@.favorite == (old(self).favorite || other.favorite),
            final(self)@.name == old(self)@.name,
            final(self)@.hostname == old(self)@.hostname,
            final(self)@.port == old(self)@.port,
            final(self)@.username == old(self)@.username,
    {
        merge_strings(&mut self.tags, &other.tags, true);
        merge_strings(&mut self.options, &other.options, false);
        if self.identity_file.is_none() {
            self.identity_file = clone_opt(&other.identity_file);
        }
        self.favorite = self.favorite || other.favorite;
    }
}

/// The keys of `~/.ssh/config` that set a field of a host.
#[derive(Clone, Copy, PartialEq, Eq, Structural)]
pub enum SshKey {
    Host,
    HostName,
    User,
    Port,
    IdentityFile,
    Other,
}

/// Which key a word names (case does not matter).
pub open spec fn ssh_key(word: Seq<char>) -> SshKey {
    if eq_ignore_ascii_case(word, "host"@) {
        SshKey::Host
    } else if eq_ignore_ascii_case(word, "hostname"@) {
        SshKey::HostName
    } else if eq_ignore_ascii_case(word, "user"@) {
        SshKey::User
    } else if eq_ignore_ascii_case(word, "port"@) {
        SshKey::Port
    } else if eq_ignore_ascii_case(word, "identityfile"@) {
        SshKey::IdentityFile
    } else {
        SshKey::Other
    }
}

/// A new host named `name`, at `name` on `port`, with nothing else set.
pub open spec fn fresh_host(name: Seq<char>, port: u16) -> SshHostView {
    SshHostView {
        name: name,
        hostname: name,
        port: port,
        username: None,
        identity_file: None,
        options: Seq::empty(),
        tags: Seq::empty(),
        favorite: false,
    }
}

/// What one line of the file does to the finished hosts and the host being
/// read. Blank lines and comments do nothing; a `Host` line finishes the
/// current host and starts a new one; the other keys set a field of the
/// current host (none before the first `Host`), and unknown keys become
/// options `key value`.
pub open spec fn ssh_line(
    state: (Seq<SshHostView>, Option<SshHostView>),
    line: Seq<char>,
    default_port: u16,
) -> (Seq<SshHostView>, Option<SshHostView>) {
    let t = trim(line);
    if t.len() == 0 || t[0] == '#' {
        state
    } else {
        let words = ws_words(t);
        let key = words[0];
        let value = join_with(words.drop_first(), " "@);
        let v = trim(value);
        let (hosts, current) = state;
        match ssh_key(key) {
            SshKey::Host => (
                match current {
                    Some(h) => hosts.push(h),
                    None => hosts,
                },
                Some(fresh_host(v, default_port)),
            ),
            _ => match current {
                None => state,
                Some(h) => (
                    hosts,
                    Some(
                        match ssh_key(key) {
                            SshKey::HostName => SshHostView { hostname: v, ..h },
                            SshKey::User => SshHostView { username: Some(v), ..h },
                            SshKey::Port => match parse_unsigned(v, 65535) {
                                Some(n) => SshHostView { port: n as u16, ..h },
                                None => h,
                            },
                            SshKey::IdentityFile => SshHostView { identity_file: Some(v), ..h },
                            _ => SshHostView { options: h.options.push(key + " "@ + value), ..h },
                        },
                    ),
                ),
            },
        }
    }
}

/// The state after the lines `lines`, in order.
pub open spec fn ssh_lines(lines: Seq<Seq<char>>, default_port: u16) -> (Seq<SshHostView>, Option<SshHostView>)
    decreases lines.len(),
{
    if lines.len() == 0 {
        (Seq::empty(), None)
    } else {
        ssh_line(ssh_lines(lines.drop_last(), default_port), lines.last(), default_port)
    }
}

/// The hosts of an `~/.ssh/config` text, in order.
pub open spec fn ssh_hosts(contents: Seq<char>, default_port: u16) -> Seq<SshHostView> {
    let (hosts, current) = ssh_lines(split_on(contents, '\n'), default_port);
    match current {
        Some(h) => hosts.push(h),
        None => hosts,
    }
}

/// The views of a list of hosts.
pub open spec fn host_views(v: Seq<SshHost>) -> Seq<SshHostView> {
    v.map_values(|h: SshHost| h@)
}

/// The view of an optional host.
pub open spec fn opt_host_view(o: Option<SshHost>) -> Option<SshHostView> {
    match o {
        Some(h) => Some(h@),
        None => None,
    }
}

/// Which key `word` names.
fn key_of(word: &[char]) -> (k: SshKey)
    ensures
        k == ssh_key(word@),
{
    let host = chars_of("host");
    let hostname = chars_of("hostname");
    let user = chars_of("user");
    let port = chars_of("port");
    let identity = chars_of("identityfile");
    if chars_eq_ignore_ascii_case(word, host.as_slice()) {
        SshKey::Host
    } else if chars_eq_ignore_ascii_case(word, hostname.as_slice()) {
        SshKey::HostName
    } else if chars_eq_ignore_ascii_case(word, user.as_slice()) {
        SshKey::User
    } else if chars_eq_ignore_ascii_case(word, port.as_slice()) {
        SshKey::Port
    } else if chars_eq_ignore_ascii_case(word, identity.as_slice()) {
        SshKey::IdentityFile
    } else {
        SshKey::Other
    }
}

/// Appends the host being read, if any, to the finished ones.
fn push_finished(hosts: &mut Vec<SshHost>, current: Option<SshHost>)
    ensures
        host_views(final(hosts)@) == match opt_host_view(current) {
            Some(h) => host_views(old(hosts)@).push(h),
            None => host_views(old(hosts)@),
        },
{
    match current {
        Some(h) => {
            hosts.push(h);
            assert(host_views(hosts@) =~= host_views(old(hosts)@).push(h@));
        },
        None => {},
    }
}

/// One line of the file: see `ssh_line`.
fn read_ssh_line(hosts: &mut Vec<SshHost>, current: Option<SshHost>, line: &[char], default_port: u16) -> (r:
    Option<SshHost>)
    ensures
        (host_views(final(hosts)@), opt_host_view(r)) == ssh_line(
            (host_views(old(hosts)@), opt_host_view(current)),
            line@,
            default_port,
        ),
{
    let t = trim_chars(line);
    if t.len() == 0 || t[0] == '#' {
        return current;
    }
    let words = split_whitespace_chars(t.as_slice());
    let ghost ws = ws_words(t@);
    proof {
        lemma_trim_first(line@);
        lemma_ws_words_first(t@, t@.len() as int);
        assert(t@.take(t@.len() as int) =~= t@);
        reveal_strlit(" ");
    }
    let key = key_of(words[0].as_slice());
    let value = join_chars(&words, 1, " ");
    proof {
        assert(ws.drop_first() =~= words@.skip(1).map_values(|p: Vec<char>| p@));
    }
    let value_chars = chars_of(value.as_str());
    let v = trim_chars(value_chars.as_slice());
    let vs = string_from_chars(v.as_slice());
    match key {
        SshKey::Host => {
            push_finished(hosts, current);
            let fresh = SshHost {
                name: vs.clone(),
                hostname: vs,
                port: default_port,
                username: None,
                identity_file: None,
                options: Vec::new(),
                tags: Vec::new(),
                favorite: false,
            };
            assert(string_views(fresh.options@) =~= Seq::<Seq<char>>::empty());
            assert(string_views(fresh.tags@) =~= Seq::<Seq<char>>::empty());
            Some(fresh)
        },
        _ => match current {
            None => None,
            Some(mut h) => {
                match key {
                    SshKey::HostName => {
                        h.hostname = vs;
                    },
                    SshKey::User => {
                        h.username = Some(vs);
                    },
                    SshKey::Port => {
                        assert(v@.subrange(0, v@.len() as int) =~= v@);
                        match parse_unsigned_range(v.as_slice(), 0, v.len(), 65535) {
                            Some(n) => {
                                h.port = n as u16;
                            },
                            None => {},
                        }
                    },
                    SshKey::IdentityFile => {
                        h.identity_file = Some(vs);
                    },
                    _ => {
                        let mut opt = string_from_chars(words[0].as_slice());
                        push_char(&mut opt, ' ');
                        append_str(&mut opt, value.as_str());
                        assert(opt@ =~= ws[0] + " "@ + value@);
                        let ghost before = h.options@;
                        h.options.push(opt);
                        assert(string_views(h.options@) =~= string_views(before).push(
                            ws[0] + " "@ + value@,
                        ));
                    },
                }
                Some(h)
            },
        },
    }
}

/// The hosts of an `~/.ssh/config` text: `Host`, `HostName`, `User`,
/// `Port` and `IdentityFile` set the fields; other keys become options.
pub fn parse_ssh_config(contents: &str, default_port: u16) -> (hosts: Vec<SshHost>)
    ensures
        host_views(hosts@) == ssh_hosts(contents@, default_port),
{
    let chars = chars_of(contents);
    let lines = split_chars(chars.as_slice(), '\n');
    let ghost lv = split_on(contents@, '\n');
    let mut hosts: Vec<SshHost> = Vec::new();
    let mut current: Option<SshHost> = None;
    let mut i: usize = 0;
    while i < lines.len()
        invariant
            i <= lines@.len() == lv.len(),
            lv == split_on(contents@, '\n'),
            forall|j: int| 0 <= j < lines@.len() ==> #[trigger] lines@[j]@ == lv[j],
            (host_views(hosts@), opt_host_view(current)) == ssh_lines(lv.take(i as int), default_port),
        decreases lines@.len() - i,
    {
        assert(lv.take(i + 1).drop_last() =~= lv.take(i as int));
        current = read_ssh_line(&mut hosts, current, lines[i].as_slice(), default_port);
        i = i + 1;
    }
    assert(lv.take(lines@.len() as int) =~= lv);
    push_finished(&mut hosts, current);
    hosts
}

} // verus!
