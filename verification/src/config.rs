use crate::errors::U2Error;
use crate::text::{
    find_stop, find_stop_from, is_stop_char, lemma_find_stop_exact, lemma_find_stop_props,
    matches_at, str_eq_at,
};
use vstd::prelude::*;
use vstd::string::{StrSliceExecFns, StringExecFns};

verus! {

/// The persisted user profile: an optional session cookie and the
/// directory that downloaded torrent files are saved to.
///
/// `save_dir` always has a value; `nexusphp_u2` may be absent until
/// the user configures it.
#[derive(Debug, Clone, PartialEq)]
pub struct U2CliConfig {
    pub nexusphp_u2: Option<String>,
    pub save_dir: String,
}

/// The view of an optional string.
pub open spec fn opt_view(o: Option<String>) -> Option<Seq<char>> {
    match o {
        Some(s) => Some(s@),
        None => None,
    }
}

/// The per-user configuration directory under the given home directory.
pub open spec fn config_dir_of(home: Seq<char>) -> Seq<char> {
    home + "/.u2"@
}

/// The configuration directory path for `home`.
pub fn config_dir(home: &str) -> (r: String)
    ensures
        r@ == config_dir_of(home@),
{
    let mut s = String::from_str(home);
    s.append("/.u2");
    s
}

/// The save directory a fresh configuration starts with: the
/// configuration directory itself.
pub fn default_save_dir(home: &str) -> (r: String)
    ensures
        r@ == config_dir_of(home@),
{
    config_dir(home)
}

/// The text that opens the cookie line, closing quote included.
pub open spec fn cookie_prefix() -> Seq<char> {
    "nexusphp_u2 = \""@
}

/// The text that opens the save-directory line.
pub open spec fn save_prefix() -> Seq<char> {
    "save_dir = \""@
}

/// The text that closes a value line: closing quote and line break.
pub open spec fn line_end() -> Seq<char> {
    "\"\n"@
}

/// A value that can stand between the quotes of a line: it holds no
/// quote and no line break.
pub open spec fn valid_value(v: Seq<char>) -> bool {
    forall|j: int| 0 <= j < v.len() ==> !is_stop_char(v[j])
}

/// The save-directory line for `dir`.
pub open spec fn save_dir_line(dir: Seq<char>) -> Seq<char> {
    save_prefix() + dir + line_end()
}

/// The cookie line for `v`.
pub open spec fn cookie_line(v: Seq<char>) -> Seq<char> {
    cookie_prefix() + v + line_end()
}

/// The serialized form of a configuration: an optional cookie line,
/// then the save-directory line.
pub open spec fn serialized(cookie: Option<Seq<char>>, dir: Seq<char>) -> Seq<char> {
    match cookie {
        Some(v) => cookie_line(v) + save_dir_line(dir),
        None => save_dir_line(dir),
    }
}

/// The save-directory value read from a save-directory line standing
/// at `k` and reaching the end of `s`, if the text from `k` on is
/// exactly such a line.
pub open spec fn parse_save_at(s: Seq<char>, k: int) -> Option<Seq<char>> {
    if matches_at(s, k, save_prefix()) {
        let st = find_stop(s, (k + save_prefix().len()) as nat);
        if st + 2 == s.len() && s[st as int] == '"' && s[st as int + 1] == '\n' {
            Some(s.subrange(k + save_prefix().len(), st as int))
        } else {
            None
        }
    } else {
        None
    }
}

/// The configuration read from `s`, if `s` is exactly an optional
/// cookie line followed by a save-directory line.
pub open spec fn parse_model(s: Seq<char>) -> Option<(Option<Seq<char>>, Seq<char>)> {
    if matches_at(s, 0, cookie_prefix()) {
        let st = find_stop(s, cookie_prefix().len());
        if st + 1 < s.len() && s[st as int] == '"' && s[st as int + 1] == '\n' {
            match parse_save_at(s, st as int + 2) {
                Some(d) => Some((Some(s.subrange(cookie_prefix().len() as int, st as int)), d)),
                None => None,
            }
        } else {
            None
        }
    } else {
        match parse_save_at(s, 0) {
            Some(d) => Some((None, d)),
            None => None,
        }
    }
}

proof fn lemma_parse_save_at_of_line(s: Seq<char>, k: int, dir: Seq<char>)
    requires
        valid_value(dir),
        0 <= k <= s.len(),
        s.subrange(k, s.len() as int) == save_dir_line(dir),
    ensures
        parse_save_at(s, k) == Some(dir),
{
    reveal_strlit("\"\n");
    let p = save_prefix().len() as int;
    let q = k + p + dir.len();
    assert(s.len() - k == save_dir_line(dir).len());
    assert(s.len() == q + 2);
    assert forall|t: int| 0 <= t < s.len() - k implies s[k + t] == save_dir_line(dir)[t] by {
        assert(s.subrange(k, s.len() as int)[t] == s[k + t]);
    }
    assert(matches_at(s, k, save_prefix())) by {
        assert(s.subrange(k, k + p) =~= save_prefix());
    }
    assert forall|j: int| k + p <= j < q implies !is_stop_char(s[j]) by {
        assert(s[j] == save_dir_line(dir)[j - k]);
        assert(save_dir_line(dir)[j - k] == dir[j - (k + p)]);
    }
    assert(s[q] == line_end()[0]) by {
        assert(s[k + (p + dir.len())] == save_dir_line(dir)[p + dir.len()]);
    }
    assert(s[q + 1] == line_end()[1]) by {
        assert(s[k + (p + dir.len() + 1)] == save_dir_line(dir)[p + dir.len() + 1]);
    }
    lemma_find_stop_exact(s, (k + p) as nat, q as nat);
    assert forall|i: int| 0 <= i < dir.len() implies s.subrange(k + p, q)[i] == dir[i] by {
        assert(s[k + (p + i)] == save_dir_line(dir)[p + i]);
    }
    assert(s.subrange(k + p, q) =~= dir);
}

/// Persisting a configuration and reading it back returns exactly the
/// values written: for every valid cookie and save directory, parsing
/// the serialized form yields that same pair.
pub proof fn lemma_config_round_trip(cookie: Option<Seq<char>>, dir: Seq<char>)
    requires
        cookie matches Some(v) ==> valid_value(v),
        valid_value(dir),
    ensures
        parse_model(serialized(cookie, dir)) == Some((cookie, dir)),
{
    reveal_strlit("nexusphp_u2 = \"");
    reveal_strlit("save_dir = \"");
    reveal_strlit("\"\n");
    let s = serialized(cookie, dir);
    match cookie {
        None => {
            assert(s[0] == save_prefix()[0]);
            assert(!matches_at(s, 0, cookie_prefix())) by {
                if matches_at(s, 0, cookie_prefix()) {
                    assert(s.subrange(0, cookie_prefix().len() as int)[0] == s[0]);
                }
            }
            assert(s.subrange(0, s.len() as int) =~= save_dir_line(dir));
            lemma_parse_save_at_of_line(s, 0, dir);
        },
        Some(v) => {
            let p1 = cookie_prefix().len() as int;
            let q1 = p1 + v.len();
            let k2 = q1 + 2;
            assert(s.len() == k2 + save_dir_line(dir).len());
            assert forall|t: int| 0 <= t < cookie_line(v).len() implies s[t] == cookie_line(v)[t]
                by {}
            assert(matches_at(s, 0, cookie_prefix())) by {
                assert(s.subrange(0, p1) =~= cookie_prefix());
            }
            assert forall|j: int| p1 <= j < q1 implies !is_stop_char(s[j]) by {
                assert(s[j] == cookie_line(v)[j]);
                assert(cookie_line(v)[j] == v[j - p1]);
            }
            assert(s[q1] == line_end()[0]);
            assert(s[q1 + 1] == line_end()[1]);
            lemma_find_stop_exact(s, p1 as nat, q1 as nat);
            assert(s.subrange(p1, q1) =~= v);
            assert(s.subrange(k2, s.len() as int) =~= save_dir_line(dir));
            lemma_parse_save_at_of_line(s, k2, dir);
        },
    }
}

/// Reads the save-directory line expected at `k`.
fn parse_save_line(s: &str, k: usize) -> (r: Option<String>)
    requires
        k <= s@.len(),
    ensures
        r is Some <==> parse_save_at(s@, k as int) is Some,
        r matches Some(d) ==> parse_save_at(s@, k as int) == Some(d@),
{
    let n = s.unicode_len();
    if !str_eq_at(s, k, "save_dir = \"") {
        return None;
    }
    let plen = "save_dir = \"".unicode_len();
    let st = find_stop_from(s, k + plen);
    proof {
        lemma_find_stop_props(s@, (k + plen) as nat);
    }
    if st < n && st + 1 < n && st + 2 == n {
        if s.get_char(st) == '"' && s.get_char(st + 1) == '\n' {
            let v = s.substring_char(k + plen, st);
            return Some(String::from_str(v));
        }
    }
    None
}

impl U2CliConfig {
    /// The configuration a first run creates: no cookie, and the
    /// configuration directory as the save directory.
    pub fn defaults(home: &str) -> (r: Self)
        ensures
            r.nexusphp_u2 is None,
            r.save_dir@ == config_dir_of(home@),
    {
        U2CliConfig { nexusphp_u2: None, save_dir: default_save_dir(home) }
    }

    /// Serializes the configuration for a whole-file overwrite of the
    /// configuration file.
    pub fn serialize(&self) -> (r: String)
        ensures
            r@ == serialized(opt_view(self.nexusphp_u2), self.save_dir@),
    {
        let mut s = String::new();
        if let Some(c) = &self.nexusphp_u2 {
            s.append("nexusphp_u2 = \"");
            s.append(c.as_str());
            s.append("\"\n");
        }
        s.append("save_dir = \"");
        s.append(self.save_dir.as_str());
        s.append("\"\n");
        proof {
            assert(s@ =~= serialized(opt_view(self.nexusphp_u2), self.save_dir@));
        }
        s
    }

    /// Parses persisted configuration text. Returns `FormatError` on
    /// exactly the inputs that are not the serialized form of any
    /// configuration.
    pub fn parse(s: &str) -> (r: Result<Self, U2Error>)
        ensures
            r is Ok <==> parse_model(s@) is Some,
            r matches Ok(c) ==> parse_model(s@) == Some((opt_view(c.nexusphp_u2), c.save_dir@)),
            r matches Err(e) ==> e == U2Error::FormatError,
    {
        let n = s.unicode_len();
        if str_eq_at(s, 0, "nexusphp_u2 = \"") {
            let plen = "nexusphp_u2 = \"".unicode_len();
            let st = find_stop_from(s, plen);
            proof {
                lemma_find_stop_props(s@, plen as nat);
            }
            if st < n && st + 1 < n {
                if s.get_char(st) == '"' && s.get_char(st + 1) == '\n' {
                    let cookie = String::from_str(s.substring_char(plen, st));
                    match parse_save_line(s, st + 2) {
                        Some(d) => {
                            return Ok(U2CliConfig { nexusphp_u2: Some(cookie), save_dir: d });
                        },
                        None => {
                            return Err(U2Error::FormatError);
                        },
                    }
                }
            }
            Err(U2Error::FormatError)
        } else {
            match parse_save_line(s, 0) {
                Some(d) => Ok(U2CliConfig { nexusphp_u2: None, save_dir: d }),
                None => Err(U2Error::FormatError),
            }
        }
    }

    /// Applies the `config` operation's optional new values: each
    /// value that is given replaces the stored one. Returns whether
    /// anything was updated, so the caller knows whether to persist.
    pub fn apply_update(&mut self, cookie: &Option<String>, save_dir: &Option<String>) -> (updated:
        bool)
        ensures
            updated == (cookie is Some || save_dir is Some),
            opt_view(final(self).nexusphp_u2) == (match cookie {
                Some(c) => Some(c@),
                None => opt_view(old(self).nexusphp_u2),
            }),
            final(self).save_dir@ == (match save_dir {
                Some(d) => d@,
                None => old(self).save_dir@,
            }),
    {
        let mut updated = false;
        if let Some(c) = cookie {
            self.nexusphp_u2 = Some(c.clone());
            updated = true;
        }
        if let Some(d) = save_dir {
            self.save_dir = d.clone();
            updated = true;
        }
        updated
    }

    /// The cookie value as the `config` command shows it: the stored
    /// value, or a literal placeholder when none is set.
    pub fn cookie_display(&self) -> (r: String)
        ensures
            r@ == (match self.nexusphp_u2 {
                Some(c) => c@,
                None => "Not set"@,
            }),
    {
        match &self.nexusphp_u2 {
            Some(c) => c.clone(),
            None => String::from_str("Not set"),
        }
    }

    /// The lines the `config` command prints when called without
    /// values: a heading, the cookie (or its placeholder), and the
    /// save directory.
    pub fn display_lines(&self) -> (r: Vec<String>)
        ensures
            r@.len() == 3,
            r@[0]@ == "Current configuration:"@,
            r@[1]@ == "Cookie: "@ + (match self.nexusphp_u2 {
                Some(c) => c@,
                None => "Not set"@,
            }),
            r@[2]@ == "Save directory: "@ + self.save_dir@,
    {
        let mut lines: Vec<String> = Vec::new();
        lines.push(String::from_str("Current configuration:"));
        let mut cline = String::from_str("Cookie: ");
        let shown = self.cookie_display();
        cline.append(shown.as_str());
        lines.push(cline);
        let mut dline = String::from_str("Save directory: ");
        dline.append(self.save_dir.as_str());
        lines.push(dline);
        lines
    }
}

} // verus!
