//! The host list loader's logic: turning the text of a hosts file into the
//! ordered list of host names.
//!
//! The file holds one host name per line. Lines are split on `'\n'`; a
//! single trailing `'\r'` is stripped from each line, so files with CRLF
//! line endings read the same as files with LF endings. A line that is empty
//! after stripping names no host and is skipped: probing an empty host name
//! could never succeed, so blank lines (including a trailing newline at the
//! end of the file) are filtered out here rather than turned into doomed
//! connection attempts.
//!
//! Reading the file itself is I/O and happens outside the library; this
//! module receives the file's content, or the failure to read it, as a
//! plain value.

use vstd::prelude::*;

verus! {

/// The views of a sequence of strings.
pub open spec fn views_of(v: Seq<String>) -> Seq<Seq<char>> {
    v.map_values(|s: String| s@)
}

/// One line with a single trailing carriage return stripped.
pub open spec fn clean_line(line: Seq<char>) -> Seq<char> {
    if line.len() > 0 && line.last() == '\r' {
        line.drop_last()
    } else {
        line
    }
}

/// Appends one raw line to the host list: stripped of a trailing `'\r'`,
/// and only if it still names something.
pub open spec fn push_host(acc: Seq<Seq<char>>, line: Seq<char>) -> Seq<Seq<char>> {
    let cleaned = clean_line(line);
    if cleaned.len() == 0 {
        acc
    } else {
        acc.push(cleaned)
    }
}

/// The host list obtained after consuming `rest`, given the partial current
/// line `cur` and the hosts `acc` already collected.
pub open spec fn hosts_after(rest: Seq<char>, cur: Seq<char>, acc: Seq<Seq<char>>) -> Seq<
    Seq<char>,
>
    decreases rest.len(),
{
    if rest.len() == 0 {
        push_host(acc, cur)
    } else if rest[0] == '\n' {
        hosts_after(rest.drop_first(), Seq::empty(), push_host(acc, cur))
    } else {
        hosts_after(rest.drop_first(), cur.push(rest[0]), acc)
    }
}

/// The host names listed in a hosts file with the given content, in file
/// order: the non-empty lines, split on `'\n'`, each stripped of a trailing
/// `'\r'`.
pub open spec fn host_lines(content: Seq<char>) -> Seq<Seq<char>> {
    hosts_after(content, Seq::empty(), Seq::empty())
}

/// The fatal diagnostic printed when the hosts file cannot be read.
pub open spec fn read_failure_chars(error: Seq<char>) -> Seq<char> {
    "Error reading file: "@ + error
}

/// Appends the line `content[start..end]`, cleaned, to the host list if it
/// names a host.
fn push_line(content: &str, start: usize, end: usize, hosts: &mut Vec<String>)
    requires
        start <= end <= old(hosts)@.len() + content@.len(),
        end <= content@.len(),
    ensures
        views_of(final(hosts)@) == push_host(views_of(old(hosts)@), content@.subrange(
            start as int,
            end as int,
        )),
{
    let ghost raw = content@.subrange(start as int, end as int);
    let stripped_end: usize = if end > start && content.get_char(end - 1) == '\r' {
        end - 1
    } else {
        end
    };
    proof {
        assert(content@.subrange(start as int, stripped_end as int) =~= clean_line(raw));
    }
    if stripped_end > start {
        let line = content.substring_char(start, stripped_end);
        hosts.push(String::from_str(line));
        proof {
            assert(views_of(hosts@) =~= views_of(old(hosts)@).push(line@));
        }
    } else {
        proof {
            assert(views_of(hosts@) =~= views_of(old(hosts)@));
        }
    }
}

/// Parses the content of a hosts file into the ordered list of host names,
/// as [`host_lines`] describes it.
pub fn parse_hosts(content: &str) -> (hosts: Vec<String>)
    ensures
        views_of(hosts@) == host_lines(content@),
{
    let len = content.unicode_len();
    let mut hosts: Vec<String> = Vec::new();
    let mut start: usize = 0;
    let mut i: usize = 0;
    proof {
        assert(content@.subrange(0, len as int) =~= content@);
        assert(content@.subrange(0, 0) =~= Seq::<char>::empty());
        assert(views_of(hosts@) =~= Seq::<Seq<char>>::empty());
    }
    while i < len
        invariant
            start <= i <= len == content@.len(),
            hosts_after(
                content@.subrange(i as int, len as int),
                content@.subrange(start as int, i as int),
                views_of(hosts@),
            ) == host_lines(content@),
        decreases len - i,
    {
        let ghost rest = content@.subrange(i as int, len as int);
        let ghost cur = content@.subrange(start as int, i as int);
        let c = content.get_char(i);
        if c == '\n' {
            push_line(content, start, i, &mut hosts);
            start = i + 1;
            proof {
                assert(rest.drop_first() =~= content@.subrange(i + 1, len as int));
                assert(content@.subrange(start as int, i + 1) =~= Seq::<char>::empty());
            }
        } else {
            proof {
                assert(rest.drop_first() =~= content@.subrange(i + 1, len as int));
                assert(cur.push(c) =~= content@.subrange(start as int, i + 1));
            }
        }
        i = i + 1;
    }
    proof {
        assert(content@.subrange(len as int, len as int) =~= Seq::<char>::empty());
    }
    push_line(content, start, len, &mut hosts);
    hosts
}

/// Decides how the run starts from the attempt to read the hosts file: a
/// successful read yields the host list to probe; a failed read yields the
/// fatal diagnostic with which the run aborts before any host is probed.
pub fn plan_run(read: Result<String, String>) -> (r: Result<Vec<String>, String>)
    ensures
        read is Ok <==> r is Ok,
        read matches Ok(content) ==> (r matches Ok(hosts) && views_of(hosts@) == host_lines(
            content@,
        )),
        read matches Err(error) ==> (r matches Err(msg) && msg@ == read_failure_chars(error@)),
{
    match read {
        Ok(content) => Ok(parse_hosts(content.as_str())),
        Err(error) => {
            let mut msg = String::from_str("Error reading file: ");
            msg.append(error.as_str());
            Err(msg)
        },
    }
}

} // verus!
