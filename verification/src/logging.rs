use vstd::prelude::*;
use crate::logs::{ContainerLog, ContainerLogView};

verus! {

/// `base` joined with `part` as a Unix path: an absolute `part` replaces
/// `base`; otherwise a `/` goes between them unless `base` is empty or
/// already ends with one.
pub open spec fn path_join(base: Seq<char>, part: Seq<char>) -> Seq<char> {
    if part.len() > 0 && part[0] == '/' {
        part
    } else if base.len() > 0 && base.last() != '/' {
        base + "/"@ + part
    } else {
        base + part
    }
}

/// `s` with every `_` taken out.
pub open spec fn without_underscores(s: Seq<char>) -> Seq<char>
    decreases s.len(),
{
    if s.len() == 0 {
        Seq::empty()
    } else if s.last() == '_' {
        without_underscores(s.drop_last())
    } else {
        without_underscores(s.drop_last()).push(s.last())
    }
}

/// Joins two paths.
pub fn join_path(base: &str, part: &str) -> (r: String)
    ensures
        r@ == path_join(base@, part@),
{
    let pn = part.unicode_len();
    let bn = base.unicode_len();
    if pn > 0 && part.get_char(0) == '/' {
        return String::from_str(part);
    }
    let mut r = String::from_str(base);
    if bn > 0 && base.get_char(bn - 1) != '/' {
        r.append("/");
    }
    r.append(part);
    r
}

/// `s` with every `_` taken out.
pub fn remove_underscores(s: &str) -> (r: String)
    ensures
        r@ == without_underscores(s@),
{
    let n = s.unicode_len();
    let mut r = String::new();
    let mut i: usize = 0;
    assert(s@.take(0) =~= Seq::<char>::empty());
    while i < n
        invariant
            n == s@.len(),
            i <= n,
            r@ == without_underscores(s@.take(i as int)),
        decreases n - i,
    {
        let piece = s.substring_char(i, i + 1);
        assert(s@.take(i + 1).drop_last() =~= s@.take(i as int));
        assert(s@.take(i + 1).last() == s@[i as int]);
        if s.get_char(i) != '_' {
            r.append(piece);
            assert(piece@ =~= seq![s@[i as int]]);
            assert(r@ =~= without_underscores(s@.take(i as int)).push(s@[i as int]));
        }
        i = i + 1;
    }
    assert(s@.take(n as int) =~= s@);
    r
}

/// Where the controller writes its log.
#[derive(Debug)]
pub struct LogPaths {
    /// The current log file.
    pub file: String,
    /// The pattern of the rolled-over files, `{}` standing for their number.
    pub rolling_pattern: String,
}

/// The log file is `prefix` under `path` with `.log` added and every `_`
/// taken out; the rolled-over files add the number before `.log`.
pub fn log_paths(logging_path: &str, logging_prefix: &str) -> (r: LogPaths)
    ensures
        r.file@ == without_underscores(path_join(logging_path@, logging_prefix@) + ".log"@),
        r.rolling_pattern@ == path_join(logging_path@, logging_prefix@) + "{}.log"@,
{
    let joined = join_path(logging_path, logging_prefix);
    let mut file = joined.clone();
    file.append(".log");
    let mut rolling_pattern = joined;
    rolling_pattern.append("{}.log");
    LogPaths { file: remove_underscores(file.as_str()), rolling_pattern }
}

/// The log entry for a chunk of a container's output: level `error` for
/// what it wrote to stderr, `info` for stdout.
pub fn container_log(name: &str, from_stderr: bool, data: String) -> (r: ContainerLog)
    ensures
        r@ == (ContainerLogView {
            name: name@,
            level: if from_stderr { "error"@ } else { "info"@ },
            data: data@,
        }),
{
    ContainerLog {
        name: String::from_str(name),
        level: if from_stderr { String::from_str("error") } else { String::from_str("info") },
        data,
    }
}

} // verus!
