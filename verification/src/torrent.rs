use crate::config::U2CliConfig;
use crate::errors::U2Error;
use crate::text::{dec_rep, dec_string, str_eq_at};
use vstd::prelude::*;
use vstd::string::{StrSliceExecFns, StringExecFns};

verus! {

/// The fixed download-URL template, up to the numeric identifier.
pub open spec fn url_prefix() -> Seq<char> {
    "https://u2.dmhy.org/download.php?id="@
}

/// The download URL for the torrent with the given identifier.
pub open spec fn torrent_url_of(id: nat) -> Seq<char> {
    url_prefix() + dec_rep(id)
}

/// Builds the download URL for `torrent_id`.
pub fn torrent_url(torrent_id: i64) -> (r: String)
    requires
        1 <= torrent_id,
    ensures
        r@ == torrent_url_of(torrent_id as nat),
{
    let mut s = String::from_str("https://u2.dmhy.org/download.php?id=");
    let digits = dec_string(torrent_id as u64);
    s.append(digits.as_str());
    s
}

/// The extension that marks a downloaded metadata file, dot included.
pub open spec fn torrent_suffix() -> Seq<char> {
    ".torrent"@
}

/// The deterministic file name for a downloaded torrent.
pub open spec fn torrent_filename_of(id: nat) -> Seq<char> {
    dec_rep(id) + torrent_suffix()
}

/// Builds the file name for `torrent_id`.
pub fn torrent_filename(torrent_id: i64) -> (r: String)
    requires
        1 <= torrent_id,
    ensures
        r@ == torrent_filename_of(torrent_id as nat),
{
    let mut s = dec_string(torrent_id as u64);
    s.append(".torrent");
    s
}

/// `file` placed directly under `dir`, with a separator added only
/// where `dir` does not already end in one.
pub open spec fn joined_path(dir: Seq<char>, file: Seq<char>) -> Seq<char> {
    if dir.len() == 0 {
        file
    } else if dir[dir.len() - 1] == '/' {
        dir + file
    } else {
        dir + "/"@ + file
    }
}

/// Joins a directory path and a file name.
pub fn join_path(dir: &str, file: &str) -> (r: String)
    ensures
        r@ == joined_path(dir@, file@),
{
    let n = dir.unicode_len();
    if n == 0 {
        String::from_str(file)
    } else if dir.get_char(n - 1) == '/' {
        let mut s = String::from_str(dir);
        s.append(file);
        s
    } else {
        let mut s = String::from_str(dir);
        s.append("/");
        s.append(file);
        s
    }
}

/// The full save path `<save_dir>/<id>.torrent`.
pub fn torrent_save_path(save_dir: &str, torrent_id: i64) -> (r: String)
    requires
        1 <= torrent_id,
    ensures
        r@ == joined_path(save_dir@, torrent_filename_of(torrent_id as nat)),
{
    let name = torrent_filename(torrent_id);
    join_path(save_dir, name.as_str())
}

/// The request-header value that carries the session cookie.
pub open spec fn cookie_header_of(cookie: Seq<char>) -> Seq<char> {
    "nexusphp_u2="@ + cookie
}

/// Builds the cookie header value for an authenticated download.
pub fn cookie_header(cookie: &str) -> (r: String)
    ensures
        r@ == cookie_header_of(cookie@),
{
    let mut s = String::from_str("nexusphp_u2=");
    s.append(cookie);
    s
}

/// Everything the one HTTP GET of a download needs: the URL, the
/// cookie header value, and the path the response body is saved to.
#[derive(Debug, Clone)]
pub struct DownloadRequest {
    pub url: String,
    pub cookie_header: String,
    pub save_path: String,
}

/// Prepares the download of `torrent_id` under `config`: fails with
/// `AuthError` exactly when no session cookie is configured, and
/// otherwise pins the URL, the cookie header and the save path.
pub fn prepare_download(config: &U2CliConfig, torrent_id: i64) -> (r: Result<
    DownloadRequest,
    U2Error,
>)
    requires
        1 <= torrent_id,
    ensures
        r is Ok <==> config.nexusphp_u2 is Some,
        r matches Ok(d) ==> {
            &&& d.url@ == torrent_url_of(torrent_id as nat)
            &&& config.nexusphp_u2 matches Some(c) && d.cookie_header@ == cookie_header_of(c@)
            &&& d.save_path@ == joined_path(
                config.save_dir@,
                torrent_filename_of(torrent_id as nat),
            )
        },
        r matches Err(e) ==> e == U2Error::AuthError,
{
    match &config.nexusphp_u2 {
        Some(c) => {
            let url = torrent_url(torrent_id);
            let header = cookie_header(c.as_str());
            let path = torrent_save_path(config.save_dir.as_str(), torrent_id);
            Ok(DownloadRequest { url, cookie_header: header, save_path: path })
        },
        None => Err(U2Error::AuthError),
    }
}

/// Whether a file name carries the `.torrent` extension: it ends in
/// the suffix and has at least one character of stem before it.
pub open spec fn has_torrent_ext(name: Seq<char>) -> bool {
    &&& name.len() > torrent_suffix().len()
    &&& name.subrange(name.len() - torrent_suffix().len(), name.len() as int) == torrent_suffix()
}

/// Tests a file name for the `.torrent` extension.
pub fn is_torrent_file(name: &str) -> (r: bool)
    ensures
        r == has_torrent_ext(name@),
{
    let n = name.unicode_len();
    let m = ".torrent".unicode_len();
    if n <= m {
        return false;
    }
    str_eq_at(name, n - m, ".torrent")
}

/// The file names with the `.torrent` extension, in their original
/// order.
pub open spec fn torrent_filter(names: Seq<Seq<char>>) -> Seq<Seq<char>>
    decreases names.len(),
{
    if names.len() == 0 {
        Seq::empty()
    } else if has_torrent_ext(names.last()) {
        torrent_filter(names.drop_last()).push(names.last())
    } else {
        torrent_filter(names.drop_last())
    }
}

/// How many file names carry the `.torrent` extension.
pub open spec fn count_torrents(names: Seq<Seq<char>>) -> nat
    decreases names.len(),
{
    if names.len() == 0 {
        0
    } else {
        count_torrents(names.drop_last()) + (if has_torrent_ext(names.last()) {
            1 as nat
        } else {
            0 as nat
        })
    }
}

/// A bulk clean removes exactly the entries with the `.torrent`
/// extension: the selection holds one entry per matching file name,
/// every selected name matches, and a name without the extension is
/// never selected.
pub proof fn lemma_select_partition(names: Seq<Seq<char>>)
    ensures
        torrent_filter(names).len() == count_torrents(names),
        count_torrents(names) <= names.len(),
        forall|j: int|
            0 <= j < torrent_filter(names).len() ==> has_torrent_ext(torrent_filter(names)[j]),
        forall|x: Seq<char>| !has_torrent_ext(x) ==> !torrent_filter(names).contains(x),
    decreases names.len(),
{
    if names.len() > 0 {
        lemma_select_partition(names.drop_last());
    }
}

/// Selects the directory entries that a bulk clean deletes.
pub fn select_torrents(entries: &Vec<String>) -> (r: Vec<String>)
    ensures
        r.deep_view() == torrent_filter(entries.deep_view()),
{
    let mut out: Vec<String> = Vec::new();
    let mut i: usize = 0;
    while i < entries.len()
        invariant
            i <= entries.len(),
            out.deep_view() == torrent_filter(entries.deep_view().take(i as int)),
        decreases entries.len() - i,
    {
        let ghost prev = entries.deep_view().take(i as int);
        let name = &entries[i];
        if is_torrent_file(name.as_str()) {
            out.push(name.clone());
        }
        i += 1;
        proof {
            let cur = entries.deep_view().take(i as int);
            assert(cur.drop_last() =~= prev);
            assert(cur.last() == name@);
            assert(out.deep_view() =~= torrent_filter(cur));
        }
    }
    proof {
        assert(entries.deep_view().take(entries@.len() as int) =~= entries.deep_view());
    }
    out
}

/// What a bulk clean removes: nothing when the save directory does
/// not exist, else the `.torrent` entries of its listing. The number
/// the operation reports is the length of the selection.
pub fn clean_selection(listing: &Option<Vec<String>>) -> (r: Vec<String>)
    ensures
        listing is None ==> r@.len() == 0,
        listing matches Some(v) ==> r.deep_view() == torrent_filter(v.deep_view()),
{
    match listing {
        None => Vec::new(),
        Some(v) => select_torrents(v),
    }
}

/// The fixed command line that hands a downloaded file to the
/// external daemon: the command name and its arguments.
pub fn transmission_command_line(torrent_path: &str) -> (r: (String, Vec<String>))
    ensures
        r.0@ == "transmission-remote"@,
        r.1@.len() == 2,
        r.1@[0]@ == "-a"@,
        r.1@[1]@ == torrent_path@,
{
    let mut args: Vec<String> = Vec::new();
    args.push(String::from_str("-a"));
    args.push(String::from_str(torrent_path));
    (String::from_str("transmission-remote"), args)
}

/// Judges the daemon invocation by its exit status: success is `Ok`,
/// failure carries the daemon's standard-error text.
pub fn transmission_outcome(success: bool, stderr_text: &str) -> (r: Result<(), U2Error>)
    ensures
        r is Ok <==> success,
        !success ==> (r matches Err(U2Error::ExternalToolError(t)) && t@ == stderr_text@),
{
    if success {
        Ok(())
    } else {
        Err(U2Error::ExternalToolError(String::from_str(stderr_text)))
    }
}

} // verus!
