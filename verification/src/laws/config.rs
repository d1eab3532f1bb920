//! What holds of the configuration.
use crate::config::{
    assignments, env_config, env_config_view, keys_among, keys_in, log_path, run_log_path,
    valid_config, Config, ConfigView,
};
use crate::laws::text::{
    blank, clean, law_cut_at_the_first, law_first_part_is_replaced, law_nothing_to_cut,
    law_one_piece, law_only_the_ends_are_trimmed, law_pieces_of_both_sides,
};
use crate::text::{has_part, pieces, replaced};
use vstd::prelude::*;

verus! {

/// What is read from two lists of lines is read from the one and then from the other.
proof fn lemma_assignments_of_both(a: Seq<Seq<char>>, b: Seq<Seq<char>>)
    ensures
        assignments(a + b) == assignments(a) + assignments(b),
    decreases b.len(),
{
    if b.len() == 0 {
        assert(a + b =~= a);
        assert(assignments(a) + assignments(b) =~= assignments(a));
    } else {
        lemma_assignments_of_both(a, b.drop_last());
        assert((a + b).drop_last() =~= a + b.drop_last());
        assert((a + b).last() == b.last());
        assert(assignments(a + b) =~= assignments(a) + assignments(b));
    }
}

/// What is listed in two lists of pieces is listed in the one and then in the other.
proof fn lemma_keys_of_both(a: Seq<Seq<char>>, b: Seq<Seq<char>>)
    ensures
        keys_among(a + b) == keys_among(a) + keys_among(b),
    decreases b.len(),
{
    if b.len() == 0 {
        assert(a + b =~= a);
        assert(keys_among(a) + keys_among(b) =~= keys_among(a));
    } else {
        lemma_keys_of_both(a, b.drop_last());
        assert((a + b).drop_last() =~= a + b.drop_last());
        assert((a + b).last() == b.last());
        assert(keys_among(a + b) =~= keys_among(a) + keys_among(b));
    }
}

/// A file is read line by line: what stands before a line break and what stands after it are
/// read on their own, in their order.
pub proof fn law_lines_are_read_one_by_one(a: Seq<char>, b: Seq<char>)
    ensures
        assignments(pieces(a.push('\n') + b, '\n')) == assignments(pieces(a, '\n')) + assignments(
            pieces(b, '\n'),
        ),
{
    law_pieces_of_both_sides(a, b, '\n');
    lemma_assignments_of_both(pieces(a, '\n'), pieces(b, '\n'));
}

/// A line is read as the key before its first equals sign and the value after it. The value is
/// all that stands there, whatever it holds; only white space around the key and around the
/// value is dropped.
pub proof fn law_line_gives_key_and_value(
    before_key: Seq<char>,
    key: Seq<char>,
    after_key: Seq<char>,
    before_value: Seq<char>,
    value: Seq<char>,
    after_value: Seq<char>,
)
    requires
        blank(before_key) && blank(after_key) && blank(before_value) && blank(after_value),
        clean(key) && clean(value),
        !(before_key + key + after_key).contains('='),
        !(before_key + key + after_key).contains('\n'),
        !(before_value + value + after_value).contains('\n'),
    ensures
        assignments(
            pieces(
                (before_key + key + after_key).push('=') + (before_value + value + after_value),
                '\n',
            ),
        ) == seq![(key, value)],
{
    let left = before_key + key + after_key;
    let right = before_value + value + after_value;
    let line = left.push('=') + right;
    assert(!line.contains('\n')) by {
        if line.contains('\n') {
            let i = choose|i: int| 0 <= i < line.len() && line[i] == '\n';
            if i < left.len() {
                assert(left[i] == '\n');
            } else if i > left.len() {
                assert(right[i - left.len() - 1] == '\n');
            }
        }
    }
    law_one_piece(line, '\n');
    law_cut_at_the_first(left, right, '=');
    law_only_the_ends_are_trimmed(before_key, key, after_key);
    law_only_the_ends_are_trimmed(before_value, value, after_value);
    assert(seq![line].drop_last() =~= Seq::empty());
    assert(seq![line].last() == line);
    assert(assignments(seq![line].drop_last()) =~= Seq::empty());
    assert(assignments(seq![line]) =~= seq![(key, value)]);
}

/// A line with neither the key nor the value in white space is read as they stand.
pub proof fn law_plain_line_gives_key_and_value(key: Seq<char>, value: Seq<char>)
    requires
        clean(key) && clean(value),
        !key.contains('='),
        !key.contains('\n'),
        !value.contains('\n'),
    ensures
        assignments(pieces(key.push('=') + value, '\n')) == seq![(key, value)],
{
    let none = Seq::<char>::empty();
    assert(none + key + none =~= key);
    assert(none + value + none =~= value);
    law_line_gives_key_and_value(none, key, none, none, value, none);
}

/// A line without an equals sign gives nothing.
pub proof fn law_line_without_equals_gives_nothing(line: Seq<char>)
    requires
        !line.contains('='),
        !line.contains('\n'),
    ensures
        assignments(pieces(line, '\n')).len() == 0,
{
    law_one_piece(line, '\n');
    law_nothing_to_cut(line, '=');
    assert(seq![line].drop_last() =~= Seq::empty());
    assert(seq![line].last() == line);
    assert(assignments(seq![line].drop_last()) =~= Seq::empty());
}

/// A list of keys is read key by key: what stands before a comma and what stands after it are
/// read on their own, in their order.
pub proof fn law_keys_are_read_one_by_one(a: Seq<char>, b: Seq<char>)
    ensures
        keys_in(a.push(',') + b) == keys_in(a) + keys_in(b),
{
    law_pieces_of_both_sides(a, b, ',');
    lemma_keys_of_both(pieces(a, ','), pieces(b, ','));
}

/// A key is read whole, without the white space around it; nothing is read from an empty one.
pub proof fn law_key_is_read_whole(before: Seq<char>, key: Seq<char>, after: Seq<char>)
    requires
        blank(before) && blank(after),
        clean(key),
        !(before + key + after).contains(','),
    ensures
        key.len() > 0 ==> keys_in(before + key + after) == seq![key],
        key.len() == 0 ==> keys_in(before + key + after).len() == 0,
{
    let s = before + key + after;
    law_one_piece(s, ',');
    law_only_the_ends_are_trimmed(before, key, after);
    assert(seq![s].drop_last() =~= Seq::empty());
    assert(seq![s].last() == s);
    assert(keys_among(seq![s].drop_last()) =~= Seq::empty());
    if key.len() > 0 {
        assert(keys_among(seq![s]) =~= seq![key]);
    }
}

/// A configuration is sound exactly if it has a deployment and an approach.
pub proof fn law_what_a_run_needs(c: ConfigView)
    ensures
        valid_config(c) <==> c.deployments.len() >= 1 && !(!c.enable_bulk_approach
            && !c.enable_decomposed_approach),
{
}

/// The log goes where the environment says, or to the usual place if it says nothing.
pub proof fn law_where_the_log_goes(path: Seq<char>)
    ensures
        log_path(Some(path)) == path,
        log_path(None) == "./logs/vm_deployment.log"@,
{
}

/// The id of a run stands in the name of its log before the ending `.log`, and everything else
/// in the name stays; where `.log` stands elsewhere in it too, the id stands before each. A name
/// without that ending gets it.
pub proof fn law_run_stands_in_the_name(base: Seq<char>, id: Seq<char>)
    ensures
        !has_part(base + ".log"@.drop_last(), ".log"@) ==> run_log_path(base + ".log"@, id) == base
            + "_"@ + id + ".log"@,
        ".log"@.is_suffix_of(base) ==> run_log_path(base, id) == replaced(
            base,
            ".log"@,
            "_"@ + id + ".log"@,
        ),
        !(".log"@.is_suffix_of(base)) ==> run_log_path(base, id) == base + "_"@ + id + ".log"@,
{
    reveal_strlit(".log");
    let part = ".log"@;
    let with = "_"@ + id + ".log"@;
    if !has_part(base + part.drop_last(), part) {
        let s = base + part;
        assert(s.subrange(s.len() - part.len(), s.len() as int) =~= part);
        assert(part.is_suffix_of(s));
        let none = Seq::<char>::empty();
        assert(base + part + none =~= s);
        assert forall|i: int| 0 <= i < base.len() implies #[trigger] (base + part + none).subrange(
            i,
            i + part.len(),
        ) != part by {
            let front = base + part.drop_last();
            assert(front.subrange(i, i + part.len()) =~= s.subrange(i, i + part.len()));
        }
        law_first_part_is_replaced(base, part, none, with);
        assert(replaced(none, part, with) =~= none);
        assert(base + with + none =~= base + "_"@ + id + ".log"@);
    }
}

/// The environment must give a key to the API and at least one key to log in with; what it gives
/// is taken as it stands, and what is missing is named.
pub proof fn law_what_the_environment_must_give(
    api_key: Seq<char>,
    keys: Seq<char>,
    path: Option<Seq<char>>,
    anything: Option<Seq<char>>,
)
    ensures
        env_config(None, anything, path) == Err::<
            (Seq<char>, Seq<Seq<char>>, Seq<char>),
            Seq<char>,
        >("FLUENCE_API_KEY not found in environment or .env file"@),
        env_config(Some(api_key), None, path) == Err::<
            (Seq<char>, Seq<Seq<char>>, Seq<char>),
            Seq<char>,
        >("SSH_KEYS not found in environment or .env file"@),
        keys_in(keys).len() == 0 ==> env_config(Some(api_key), Some(keys), path) == Err::<
            (Seq<char>, Seq<Seq<char>>, Seq<char>),
            Seq<char>,
        >("No valid SSH keys found in SSH_KEYS"@),
        keys_in(keys).len() > 0 ==> env_config(Some(api_key), Some(keys), path) == Ok::<
            (Seq<char>, Seq<Seq<char>>, Seq<char>),
            Seq<char>,
        >(
            (
                api_key,
                keys_in(keys),
                if path is Some {
                    path->0
                } else {
                    "./logs/vm_deployment.log"@
                },
            ),
        ),
{
}

/// Each setting is seen as it was read.
pub proof fn law_settings_are_seen_whole(c: Config)
    ensures
        c.deep_view().api_base_url == c.api_base_url@,
        c.deep_view().config_file_path == c.config_file_path@,
        c.deep_view().enable_console_output == c.enable_console_output,
        c.deep_view().deployment_timeout_seconds == c.deployment_timeout_seconds,
        c.deep_view().poll_interval_seconds == c.poll_interval_seconds,
        c.deep_view().enable_status_polling == c.enable_status_polling,
        c.deep_view().enable_ip_retrieval == c.enable_ip_retrieval,
        c.deep_view().batch_delete_enabled == c.batch_delete_enabled,
        c.deep_view().delete_delay_seconds == c.delete_delay_seconds,
        c.deep_view().enable_bulk_approach == c.enable_bulk_approach,
        c.deep_view().enable_decomposed_approach == c.enable_decomposed_approach,
        c.deep_view().http_timeout_seconds == c.http_timeout_seconds,
        c.deep_view().deployments.len() == c.deployments@.len(),
        forall|i: int|
            0 <= i < c.deployments@.len() ==> (#[trigger] c.deep_view().deployments[i])
                == c.deployments@[i].deep_view(),
{
}

/// What is read from the environment is seen as it was read.
pub proof fn law_environment_is_seen_whole(
    r: Result<(String, Vec<String>, String), String>,
)
    ensures
        r is Ok ==> env_config_view(r) == Ok::<
            (Seq<char>, Seq<Seq<char>>, Seq<char>),
            Seq<char>,
        >(((r->Ok_0).0@, (r->Ok_0).1.deep_view(), (r->Ok_0).2@)),
        r is Err ==> env_config_view(r) == Err::<
            (Seq<char>, Seq<Seq<char>>, Seq<char>),
            Seq<char>,
        >((r->Err_0)@),
{
}

} // verus!
