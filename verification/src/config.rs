//! The configuration of a run: what it may hold, what is read from the environment and where
//! the log goes.
use crate::client::{Deployment, DeploymentView};
use crate::clock::{on_calendar, read_utc, run_id_pattern, utc_reading, utc_text, utc_written};
use crate::text::{
    ends_with, pieces, replace, replaced, sides, split, split_once, trim, trimmed, white_space,
};
use vstd::prelude::*;

verus! {

/// The configuration of a run.
#[derive(Debug)]
pub struct Config {
    pub api_base_url: String,
    pub config_file_path: String,
    pub enable_console_output: bool,
    pub deployment_timeout_seconds: u64,
    pub poll_interval_seconds: u64,
    pub enable_status_polling: bool,
    pub enable_ip_retrieval: bool,
    pub batch_delete_enabled: bool,
    pub delete_delay_seconds: u64,
    pub enable_bulk_approach: bool,
    pub enable_decomposed_approach: bool,
    pub http_timeout_seconds: u64,
    pub deployments: Vec<Deployment>,
}

pub struct ConfigView {
    pub api_base_url: Seq<char>,
    pub config_file_path: Seq<char>,
    pub enable_console_output: bool,
    pub deployment_timeout_seconds: u64,
    pub poll_interval_seconds: u64,
    pub enable_status_polling: bool,
    pub enable_ip_retrieval: bool,
    pub batch_delete_enabled: bool,
    pub delete_delay_seconds: u64,
    pub enable_bulk_approach: bool,
    pub enable_decomposed_approach: bool,
    pub http_timeout_seconds: u64,
    pub deployments: Seq<DeploymentView>,
}

impl DeepView for Config {
    type V = ConfigView;

    open spec fn deep_view(&self) -> ConfigView {
        ConfigView {
            api_base_url: self.api_base_url@,
            config_file_path: self.config_file_path@,
            enable_console_output: self.enable_console_output,
            deployment_timeout_seconds: self.deployment_timeout_seconds,
            poll_interval_seconds: self.poll_interval_seconds,
            enable_status_polling: self.enable_status_polling,
            enable_ip_retrieval: self.enable_ip_retrieval,
            batch_delete_enabled: self.batch_delete_enabled,
            delete_delay_seconds: self.delete_delay_seconds,
            enable_bulk_approach: self.enable_bulk_approach,
            enable_decomposed_approach: self.enable_decomposed_approach,
            http_timeout_seconds: self.http_timeout_seconds,
            deployments: self.deployments.deep_view(),
        }
    }
}

impl Clone for Config {
    fn clone(&self) -> (r: Self)
        ensures
            r.deep_view() == self.deep_view(),
    {
        let r: Config = Config {
            api_base_url: self.api_base_url.clone(),
            config_file_path: self.config_file_path.clone(),
            enable_console_output: self.enable_console_output,
            deployment_timeout_seconds: self.deployment_timeout_seconds,
            poll_interval_seconds: self.poll_interval_seconds,
            enable_status_polling: self.enable_status_polling,
            enable_ip_retrieval: self.enable_ip_retrieval,
            batch_delete_enabled: self.batch_delete_enabled,
            delete_delay_seconds: self.delete_delay_seconds,
            enable_bulk_approach: self.enable_bulk_approach,
            enable_decomposed_approach: self.enable_decomposed_approach,
            http_timeout_seconds: self.http_timeout_seconds,
            deployments: self.deployments.clone(),
        };
        assert(r.deployments.deep_view() =~= self.deployments.deep_view());
        r
    }
}

/// There is something to deploy and a way to do it.
pub open spec fn valid_config(c: ConfigView) -> bool {
    c.deployments.len() > 0 && (c.enable_bulk_approach || c.enable_decomposed_approach)
}

/// The assignments `key=value` among some lines, without the white space around the key and
/// the value. What comes after the first equals sign belongs to the value.
pub open spec fn assignments(lines: Seq<Seq<char>>) -> Seq<(Seq<char>, Seq<char>)>
    decreases lines.len(),
{
    if lines.len() == 0 {
        Seq::empty()
    } else {
        let front = assignments(lines.drop_last());
        match sides(lines.last(), '=') {
            Some((key, value)) => front.push((trimmed(key), trimmed(value))),
            None => front,
        }
    }
}

/// The keys among some pieces: without the white space around them and without the empty ones.
pub open spec fn keys_among(list: Seq<Seq<char>>) -> Seq<Seq<char>>
    decreases list.len(),
{
    if list.len() == 0 {
        Seq::empty()
    } else {
        let front = keys_among(list.drop_last());
        if trimmed(list.last()).len() > 0 {
            front.push(trimmed(list.last()))
        } else {
            front
        }
    }
}

/// The keys in a text that lists them with commas.
pub open spec fn keys_in(s: Seq<char>) -> Seq<Seq<char>> {
    keys_among(pieces(s, ','))
}

/// Where the log goes unless the environment says otherwise.
pub open spec fn default_log_path() -> Seq<char> {
    "./logs/vm_deployment.log"@
}

/// Where the log goes.
pub open spec fn log_path(variable: Option<Seq<char>>) -> Seq<char> {
    match variable {
        Some(path) => path,
        None => default_log_path(),
    }
}

/// Where the log of one run goes: its id stands before each `.log`, or at the end if the path
/// does not end in `.log`.
pub open spec fn run_log_path(path: Seq<char>, run_id: Seq<char>) -> Seq<char> {
    if ".log"@.is_suffix_of(path) {
        replaced(path, ".log"@, "_"@ + run_id + ".log"@)
    } else {
        path + "_"@ + run_id + ".log"@
    }
}

/// What the environment must give: the key to the API, keys to log in with and, if it is set,
/// where the log goes.
pub open spec fn env_config(
    api_key: Option<Seq<char>>,
    ssh_keys: Option<Seq<char>>,
    log_file_path: Option<Seq<char>>,
) -> Result<(Seq<char>, Seq<Seq<char>>, Seq<char>), Seq<char>> {
    match (api_key, ssh_keys) {
        (None, _) => Err("FLUENCE_API_KEY not found in environment or .env file"@),
        (Some(_), None) => Err("SSH_KEYS not found in environment or .env file"@),
        (Some(key), Some(list)) => if keys_in(list).len() == 0 {
            Err("No valid SSH keys found in SSH_KEYS"@)
        } else {
            Ok((key, keys_in(list), log_path(log_file_path)))
        },
    }
}

pub open spec fn env_config_view(
    r: Result<(String, Vec<String>, String), String>,
) -> Result<(Seq<char>, Seq<Seq<char>>, Seq<char>), Seq<char>> {
    match r {
        Ok(t) => Ok(t.deep_view()),
        Err(e) => Err(e@),
    }
}

/// Where the configuration is read from, given the variable `CONFIG_FILE_PATH`.
pub fn config_file_path(variable: Option<String>) -> (r: String)
    ensures
        r@ == match variable {
            Some(path) => path@,
            None => "./deployment_config.yaml"@,
        },
{
    match variable {
        Some(path) => path,
        None => "./deployment_config.yaml".to_string(),
    }
}

/// Where the log goes, given the variable `LOG_FILE_PATH`.
pub fn log_file_path(variable: Option<String>) -> (r: String)
    ensures
        r@ == log_path(variable.deep_view()),
{
    match variable {
        Some(path) => path,
        None => "./logs/vm_deployment.log".to_string(),
    }
}

/// Reads the assignments in a file of environment variables. A carriage return at the end of a
/// line counts as white space.
pub fn env_assignments(content: &str) -> (r: Vec<(String, String)>)
    ensures
        r.deep_view() == assignments(pieces(content@, '\n')),
{
    let lines: Vec<String> = split(content, '\n');
    let mut out: Vec<(String, String)> = Vec::new();
    let mut i: usize = 0;
    assert(out.deep_view() =~= assignments(lines.deep_view().take(0)));
    while i < lines.len()
        invariant
            i <= lines.len(),
            out.deep_view() == assignments(lines.deep_view().take(i as int)),
        decreases lines.len() - i,
    {
        let ghost before = out.deep_view();
        assert(lines.deep_view().take(i + 1).drop_last() =~= lines.deep_view().take(i as int));
        if let Some((key, value)) = split_once(lines[i].as_str(), '=') {
            let pair: (String, String) = (trim(key.as_str()), trim(value.as_str()));
            let ghost added = pair.deep_view();
            out.push(pair);
            assert(out.deep_view() =~= before.push(added));
        }
        i += 1;
    }
    assert(lines.deep_view().take(i as int) =~= lines.deep_view());
    out
}

/// Reads a list of keys that are separated by commas.
pub fn parse_ssh_keys(s: &str) -> (r: Vec<String>)
    ensures
        r.deep_view() == keys_in(s@),
{
    let list: Vec<String> = split(s, ',');
    let mut out: Vec<String> = Vec::new();
    let mut i: usize = 0;
    assert(out.deep_view() =~= keys_among(list.deep_view().take(0)));
    while i < list.len()
        invariant
            i <= list.len(),
            out.deep_view() == keys_among(list.deep_view().take(i as int)),
        decreases list.len() - i,
    {
        let ghost before = out.deep_view();
        assert(list.deep_view().take(i + 1).drop_last() =~= list.deep_view().take(i as int));
        let key: String = trim(list[i].as_str());
        if !key.as_str().is_empty() {
            let ghost added = key@;
            out.push(key);
            assert(out.deep_view() =~= before.push(added));
        }
        i += 1;
    }
    assert(list.deep_view().take(i as int) =~= list.deep_view());
    out
}

/// Reads what the environment must give from the variables `FLUENCE_API_KEY`, `SSH_KEYS` and
/// `LOG_FILE_PATH`: the key to the API, the keys to log in with and where the log goes.
pub fn load_env_config(
    api_key: Option<String>,
    ssh_keys: Option<String>,
    log_path: Option<String>,
) -> (r: Result<(String, Vec<String>, String), String>)
    ensures
        env_config_view(r) == env_config(
            api_key.deep_view(),
            ssh_keys.deep_view(),
            log_path.deep_view(),
        ),
{
    match (api_key, ssh_keys) {
        (None, _) => Err("FLUENCE_API_KEY not found in environment or .env file".to_string()),
        (Some(_), None) => Err("SSH_KEYS not found in environment or .env file".to_string()),
        (Some(key), Some(list)) => {
            let keys: Vec<String> = parse_ssh_keys(list.as_str());
            if keys.len() == 0 {
                Err("No valid SSH keys found in SSH_KEYS".to_string())
            } else {
                Ok((key, keys, log_file_path(log_path)))
            }
        },
    }
}

/// Where the log of one run goes.
pub fn log_path_of_run(path: &str, run_id: &str) -> (r: String)
    ensures
        r@ == run_log_path(path@, run_id@),
{
    let suffix: String = "_".to_string().concat(run_id).concat(".log");
    if ends_with(path, ".log") {
        replace(path, ".log", suffix.as_str())
    } else {
        let r: String = path.to_string().concat(suffix.as_str());
        assert(r@ =~= path@ + "_"@ + run_id@ + ".log"@);
        r
    }
}

/// The id of the run that starts at a moment, given in seconds since 1970.
pub fn run_id(seconds: i64) -> (r: String)
    requires
        on_calendar(seconds as int),
    ensures
        r@ == utc_written(seconds as int, run_id_pattern()),
{
    utc_text(seconds, "%Y%m%d_%H%M%S")
}

/// Names the log of the run that starts now, given the variable `LOG_FILE_PATH`. The result is
/// where the log goes and when the run starts, in seconds since 1970.
pub fn setup_logging(variable: Option<String>) -> (r: (String, i64))
    ensures
        utc_reading(r.1),
        on_calendar(r.1 as int),
        r.0@ == run_log_path(
            log_path(variable.deep_view()),
            utc_written(r.1 as int, run_id_pattern()),
        ),
{
    let seconds: i64 = read_utc();
    let id: String = run_id(seconds);
    let path: String = log_file_path(variable);
    (log_path_of_run(path.as_str(), id.as_str()), seconds)
}

/// Checks that there is something to deploy and a way to do it.
pub fn validate_config(config: &Config) -> (r: Result<(), String>)
    ensures
        r is Ok <==> valid_config(config.deep_view()),
        r matches Err(e) ==> e@ == if config.deep_view().deployments.len() == 0 {
            "No deployments found in config file"@
        } else {
            "Both bulk and decomposed approaches are disabled! Enable at least one in config."@
        },
{
    if config.deployments.len() == 0 {
        return Err("No deployments found in config file".to_string());
    }
    if !config.enable_bulk_approach && !config.enable_decomposed_approach {
        return Err(
            "Both bulk and decomposed approaches are disabled! Enable at least one in config.".to_string(),
        );
    }
    Ok(())
}

/// Names the approaches that a run takes.
pub fn get_approach_info(config: &Config) -> (r: &'static str)
    requires
        config.enable_bulk_approach || config.enable_decomposed_approach,
    ensures
        r@ == if config.enable_bulk_approach && config.enable_decomposed_approach {
            "BOTH BULK and DECOMPOSED approaches"@
        } else if config.enable_bulk_approach {
            "BULK approach only"@
        } else {
            "DECOMPOSED approach only"@
        },
{
    if config.enable_bulk_approach && config.enable_decomposed_approach {
        "BOTH BULK and DECOMPOSED approaches"
    } else if config.enable_bulk_approach {
        "BULK approach only"
    } else {
        "DECOMPOSED approach only"
    }
}

/// A text that ends in `.log` ends in the replacement once each `.log` is replaced: no `.log`
/// overlaps another.
proof fn lemma_replaced_ends(s: Seq<char>, with: Seq<char>)
    requires
        ".log"@.is_suffix_of(s),
    ensures
        with.is_suffix_of(replaced(s, ".log"@, with)),
    decreases s.len(),
{
    reveal_strlit(".log");
    let part = ".log"@;
    let tail = s.subrange(s.len() - 4, s.len() as int);
    assert(tail == part);
    assert(tail[0] == '.');
    if s.take(4) == part {
        assert(s.take(4)[1] == 'l' && s.take(4)[2] == 'o' && s.take(4)[3] == 'g');
        let rest = s.skip(4);
        if s.len() == 4 {
            assert(with + replaced(rest, part, with) =~= with);
        } else {
            assert(s.len() >= 8) by {
                if s.len() < 8 {
                    assert(s[s.len() - 4] == tail[0]);
                    assert(s.take(4)[s.len() - 4] == s[s.len() - 4]);
                }
            }
            assert(rest.subrange(rest.len() - 4, rest.len() as int) =~= tail);
            lemma_replaced_ends(rest, with);
            lemma_suffix_of_sum(with, with, replaced(rest, part, with));
        }
    } else {
        let rest = s.drop_first();
        if s.len() == 4 {
            assert(s.take(4) =~= tail);
        }
        assert(rest.subrange(rest.len() - 4, rest.len() as int) =~= tail);
        lemma_replaced_ends(rest, with);
        lemma_suffix_of_sum(with, seq![s.first()], replaced(rest, part, with));
    }
}

proof fn lemma_suffix_of_sum(end: Seq<char>, a: Seq<char>, b: Seq<char>)
    requires
        end.is_suffix_of(b),
    ensures
        end.is_suffix_of(a + b),
{
    let sum = a + b;
    assert(sum.subrange(sum.len() - end.len(), sum.len() as int) =~= b.subrange(
        b.len() - end.len(),
        b.len() as int,
    ));
}

/// A longer replacement never makes the result shorter.
proof fn lemma_replaced_grows(s: Seq<char>, part: Seq<char>, short: Seq<char>, long: Seq<char>)
    requires
        short.len() <= long.len(),
    ensures
        replaced(s, part, short).len() <= replaced(s, part, long).len(),
    decreases s.len(),
{
    if part.len() == 0 || s.len() < part.len() {
    } else if s.take(part.len() as int) == part {
        lemma_replaced_grows(s.skip(part.len() as int), part, short, long);
    } else {
        lemma_replaced_grows(s.drop_first(), part, short, long);
    }
}

/// In a text that ends in `.log`, a longer replacement makes the result longer.
proof fn lemma_replaced_grows_strictly(s: Seq<char>, short: Seq<char>, long: Seq<char>)
    requires
        ".log"@.is_suffix_of(s),
        short.len() < long.len(),
    ensures
        replaced(s, ".log"@, short).len() < replaced(s, ".log"@, long).len(),
    decreases s.len(),
{
    reveal_strlit(".log");
    let part = ".log"@;
    if s.take(4) == part {
        lemma_replaced_grows(s.skip(4), part, short, long);
    } else {
        let rest = s.drop_first();
        let tail = s.subrange(s.len() - 4, s.len() as int);
        if s.len() == 4 {
            assert(s.take(4) =~= tail);
        }
        assert(rest.subrange(rest.len() - 4, rest.len() as int) =~= tail);
        lemma_replaced_grows_strictly(rest, short, long);
    }
}

/// Two runs with different ids never write to the same log.
pub proof fn law_each_run_has_its_own_log(path: Seq<char>, a: Seq<char>, b: Seq<char>)
    requires
        a != b,
    ensures
        run_log_path(path, a) != run_log_path(path, b),
{
    let wa = "_"@ + a + ".log"@;
    let wb = "_"@ + b + ".log"@;
    let pa = run_log_path(path, a);
    let pb = run_log_path(path, b);
    reveal_strlit("_");
    if pa == pb {
        if ".log"@.is_suffix_of(path) {
            if wa.len() < wb.len() {
                lemma_replaced_grows_strictly(path, wa, wb);
            } else if wb.len() < wa.len() {
                lemma_replaced_grows_strictly(path, wb, wa);
            } else {
                lemma_replaced_ends(path, wa);
                lemma_replaced_ends(path, wb);
                assert(wa == wb);
            }
        } else {
            assert(pa =~= path + wa);
            assert(pb =~= path + wb);
            assert(wa =~= pa.skip(path.len() as int));
            assert(wb =~= pb.skip(path.len() as int));
        }
        assert(wa == wb);
        assert(a =~= wa.subrange(1, 1 + a.len() as int));
        assert(b =~= wb.subrange(1, 1 + b.len() as int));
    }
}

/// The path of a log ends in the id of its run and `.log`.
pub proof fn law_log_is_named_after_run(path: Seq<char>, run_id: Seq<char>)
    ensures
        ("_"@ + run_id + ".log"@).is_suffix_of(run_log_path(path, run_id)),
{
    let end = "_"@ + run_id + ".log"@;
    if ".log"@.is_suffix_of(path) {
        lemma_replaced_ends(path, end);
    } else {
        let whole = run_log_path(path, run_id);
        assert(whole =~= path + end);
        assert(whole.subrange(whole.len() - end.len(), whole.len() as int) =~= end);
    }
}

/// The keys that are read are not empty and have no white space around them.
pub proof fn law_keys_are_clean(s: Seq<char>, i: int)
    requires
        0 <= i < keys_in(s).len(),
    ensures
        keys_in(s)[i].len() > 0,
        trimmed(keys_in(s)[i]) == keys_in(s)[i],
{
    lemma_keys_are_clean(pieces(s, ','), i);
}

proof fn lemma_keys_are_clean(list: Seq<Seq<char>>, i: int)
    requires
        0 <= i < keys_among(list).len(),
    ensures
        keys_among(list)[i].len() > 0,
        trimmed(keys_among(list)[i]) == keys_among(list)[i],
    decreases list.len(),
{
    let front = keys_among(list.drop_last());
    if i < front.len() {
        lemma_keys_are_clean(list.drop_last(), i);
    } else {
        lemma_trimmed_twice(list.last());
    }
}

proof fn lemma_trimmed_twice(s: Seq<char>)
    ensures
        trimmed(trimmed(s)) == trimmed(s),
    decreases s.len(),
{
    if s.len() == 0 {
    } else if white_space(s.first()) {
        lemma_trimmed_twice(s.drop_first());
    } else if white_space(s.last()) {
        lemma_trimmed_twice(s.drop_last());
    }
}

} // verus!
