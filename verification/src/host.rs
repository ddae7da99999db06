//! Decisions about the host the tool runs on: which commands keep the
//! network capabilities the binary is installed with, and the `systemctl`
//! calls that switch the desktop's MTP automounter off and on, and the
//! resident memory the process reports about itself.

use vstd::prelude::*;

use crate::credentials::arg_texts;
use crate::text::{
    first_word, parse_bounded, parse_u64, spec_first_word, split_lines, str_eq, string_texts,
    text_lines,
};

verus! {

/// Whether a command line needs the network-administration capabilities:
/// only the commands that bring up the head unit's own Wi-Fi access
/// point do; every other command runs with them dropped.
pub open spec fn spec_needs_network_capabilities(args: Seq<Seq<char>>) -> bool {
    args.len() >= 2 && args[0] == "usb"@ && (args[1] == "kiosk"@ || args[1]
        == "wireless-bootstrap-probe"@)
}

/// Whether a command line needs the network-administration capabilities.
pub fn needs_network_capabilities(args: &[String]) -> (r: bool)
    ensures
        r == spec_needs_network_capabilities(arg_texts(args@)),
{
    let ghost a = arg_texts(args@);
    assert(a.len() == args@.len());
    if args.len() < 2 {
        return false;
    }
    assert(a[0] == args@[0]@ && a[1] == args@[1]@);
    str_eq(args[0].as_str(), "usb") && (str_eq(args[1].as_str(), "kiosk") || str_eq(
        args[1].as_str(),
        "wireless-bootstrap-probe",
    ))
}

/// The `systemctl` argument lists that bring the MTP automounter into the
/// wanted state, run in order until one fails: suppressing masks and
/// stops it at once; allowing it again unmasks it, then starts it.
pub open spec fn spec_mtp_suppression_commands(enabled: bool) -> Seq<Seq<Seq<char>>> {
    if enabled {
        seq![seq!["--user"@, "mask"@, "--now"@, "gvfs-mtp-volume-monitor.service"@]]
    } else {
        seq![
            seq!["--user"@, "unmask"@, "gvfs-mtp-volume-monitor.service"@],
            seq!["--user"@, "start"@, "gvfs-mtp-volume-monitor.service"@],
        ]
    }
}

fn strings(parts: &[&str]) -> (r: Vec<String>)
    ensures
        r@.len() == parts@.len(),
        forall|i: int| 0 <= i < parts@.len() ==> r@[i]@ == parts@[i]@,
{
    let mut r: Vec<String> = Vec::new();
    let mut i: usize = 0;
    while i < parts.len()
        invariant
            i <= parts@.len(),
            r@.len() == i,
            forall|j: int| 0 <= j < i ==> r@[j]@ == parts@[j]@,
        decreases parts.len() - i,
    {
        r.push(String::from_str(parts[i]));
        i = i + 1;
    }
    r
}

/// The `systemctl` argument lists for the wanted MTP-automounter state.
pub fn mtp_suppression_commands(enabled: bool) -> (r: Vec<Vec<String>>)
    ensures
        r@.len() == spec_mtp_suppression_commands(enabled).len(),
        forall|i: int|
            0 <= i < r@.len() ==> arg_texts(#[trigger] r@[i]@) == spec_mtp_suppression_commands(
                enabled,
            )[i],
{
    let mut r: Vec<Vec<String>> = Vec::new();
    if enabled {
        r.push(strings(&["--user", "mask", "--now", "gvfs-mtp-volume-monitor.service"]));
    } else {
        r.push(strings(&["--user", "unmask", "gvfs-mtp-volume-monitor.service"]));
        r.push(strings(&["--user", "start", "gvfs-mtp-volume-monitor.service"]));
    }
    proof {
        assert forall|i: int| 0 <= i < r@.len() implies arg_texts(
            #[trigger] r@[i]@,
        ) == spec_mtp_suppression_commands(enabled)[i] by {
            assert(arg_texts(r@[i]@) =~= spec_mtp_suppression_commands(enabled)[i]);
        }
    }
    r
}

/// Where bringing the MTP automounter into the wanted state stands: the
/// `systemctl` argument lists to run, how many of them have succeeded,
/// and whether one has failed.
pub struct MtpSyncView {
    pub commands: Seq<Seq<Seq<char>>>,
    pub completed: nat,
    pub failed: bool,
}

/// The argument list to run next: the first one not yet run, as long as
/// every one before it succeeded.
pub open spec fn spec_next_mtp_command(s: MtpSyncView) -> Option<Seq<Seq<char>>> {
    if !s.failed && s.completed < s.commands.len() {
        Some(s.commands[s.completed as int])
    } else {
        None
    }
}

/// Runs the MTP-automounter commands in order, each only after the one
/// before it succeeded, and stops at the first failure.
pub struct MtpSync {
    commands: Vec<Vec<String>>,
    completed: usize,
    failed: bool,
}

impl MtpSync {
    #[verifier::type_invariant]
    spec fn inv(self) -> bool {
        self.completed <= self.commands@.len()
    }

    /// The state as plain values.
    pub closed spec fn spec_view(self) -> MtpSyncView {
        MtpSyncView {
            commands: self.commands@.map_values(|args: Vec<String>| arg_texts(args@)),
            completed: self.completed as nat,
            failed: self.failed,
        }
    }
}

impl View for MtpSync {
    type V = MtpSyncView;

    open spec fn view(&self) -> MtpSyncView {
        self.spec_view()
    }
}

impl MtpSync {
    /// Nothing run yet, towards the wanted automounter state.
    pub fn new(enabled: bool) -> (s: MtpSync)
        ensures
            s@ == (MtpSyncView {
                commands: spec_mtp_suppression_commands(enabled),
                completed: 0,
                failed: false,
            }),
    {
        let commands = mtp_suppression_commands(enabled);
        let s = MtpSync { commands, completed: 0, failed: false };
        proof {
            assert(s@.commands =~= spec_mtp_suppression_commands(enabled));
        }
        s
    }

    /// The argument list to run next, if any.
    pub fn next_command(&self) -> (r: Option<&Vec<String>>)
        ensures
            r is Some <==> spec_next_mtp_command(self@) is Some,
            r matches Some(args) ==> Some(arg_texts(args@)) == spec_next_mtp_command(self@),
    {
        proof {
            use_type_invariant(self);
        }
        if !self.failed && self.completed < self.commands.len() {
            let r = &self.commands[self.completed];
            proof {
                assert(self@.commands[self.completed as int] == arg_texts(r@));
            }
            Some(r)
        } else {
            None
        }
    }

    /// Records whether the command just run succeeded: a success moves on
    /// to the next one, a failure stops the run.
    pub fn record(&mut self, succeeded: bool)
        requires
            spec_next_mtp_command(old(self)@) is Some,
        ensures
            final(self)@ == (if succeeded {
                MtpSyncView { completed: old(self)@.completed + 1, ..old(self)@ }
            } else {
                MtpSyncView { failed: true, ..old(self)@ }
            }),
    {
        proof {
            use_type_invariant(&*self);
            assert(old(self)@.commands.len() == self.commands@.len());
        }
        let n = self.commands.len();
        assert(self.completed < n);
        if succeeded {
            self.completed = self.completed + 1;
        } else {
            self.failed = true;
        }
    }

    /// Whether every command ran and succeeded.
    pub fn is_done(&self) -> (r: bool)
        ensures
            r == (self@.completed == self@.commands.len()),
    {
        proof {
            use_type_invariant(self);
        }
        self.completed == self.commands.len()
    }
}

/// The resident memory a `VmRSS:` line of `/proc/self/status` reports,
/// in KiB: the first word after the label, read as a number.
pub open spec fn rss_of_line(line: Seq<char>) -> Option<nat> {
    if line.len() >= 6 && line.take(6) == "VmRSS:"@ {
        match spec_first_word(line.skip(6)) {
            Some(word) => parse_bounded(word, u64::MAX as nat),
            None => None,
        }
    } else {
        None
    }
}

/// The value of the first line that reports the resident memory.
pub open spec fn first_rss(lines: Seq<Seq<char>>) -> Option<nat>
    decreases lines.len(),
{
    if lines.len() == 0 {
        None
    } else {
        match rss_of_line(lines[0]) {
            Some(v) => Some(v),
            None => first_rss(lines.drop_first()),
        }
    }
}

/// The process's resident memory in KiB from its status text, 0 where
/// no line reports it.
pub open spec fn spec_resident_memory_kib(status: Seq<char>) -> nat {
    match first_rss(text_lines(status)) {
        Some(v) => v,
        None => 0,
    }
}

fn rss_of(line: &str) -> (r: Option<u64>)
    ensures
        match r {
            Some(v) => rss_of_line(line@) == Some(v as nat),
            None => rss_of_line(line@) is None,
        },
{
    let len: usize = line.unicode_len();
    if len < 6 {
        return None;
    }
    let label = line.substring_char(0, 6);
    assert(label@ =~= line@.take(6));
    if !str_eq(label, "VmRSS:") {
        return None;
    }
    let rest = line.substring_char(6, len);
    assert(rest@ =~= line@.skip(6));
    match first_word(rest) {
        Some(word) => parse_u64(word),
        None => None,
    }
}

proof fn lemma_first_rss_prefix(lines: Seq<Seq<char>>, i: int)
    requires
        0 <= i < lines.len(),
        first_rss(lines.take(i)) is None,
    ensures
        first_rss(lines.take(i + 1)) == rss_of_line(lines[i]),
    decreases i,
{
    if i > 0 {
        assert(lines.take(i).drop_first() =~= lines.drop_first().take(i - 1));
        assert(lines.take(i + 1).drop_first() =~= lines.drop_first().take(i));
        assert(lines.take(i)[0] == lines[0]);
        assert(lines.take(i + 1)[0] == lines[0]);
        assert(lines.drop_first()[i - 1] == lines[i]);
        assert(rss_of_line(lines[0]) is None);
        lemma_first_rss_prefix(lines.drop_first(), i - 1);
    } else {
        assert(lines.take(1).drop_first() =~= Seq::<Seq<char>>::empty());
        assert(first_rss(Seq::<Seq<char>>::empty()) is None);
        assert(lines.take(1)[0] == lines[0]);
    }
}

proof fn lemma_first_rss_found(lines: Seq<Seq<char>>, i: int)
    requires
        0 <= i <= lines.len(),
        first_rss(lines.take(i)) is Some,
    ensures
        first_rss(lines) == first_rss(lines.take(i)),
    decreases i,
{
    if i > 0 && rss_of_line(lines[0]) is None {
        assert(lines.take(i).drop_first() =~= lines.drop_first().take(i - 1));
        lemma_first_rss_found(lines.drop_first(), i - 1);
    }
}

/// The process's resident memory in KiB from its `/proc/self/status`
/// text.
pub fn resident_memory_kib(status: &str) -> (r: u64)
    ensures
        r == spec_resident_memory_kib(status@),
{
    let lines = split_lines(status);
    let ghost all = string_texts(lines@);
    let mut i: usize = 0;
    assert(all.take(0) =~= Seq::<Seq<char>>::empty());
    while i < lines.len()
        invariant
            i <= lines@.len(),
            all == string_texts(lines@),
            all == text_lines(status@),
            first_rss(all.take(i as int)) is None,
        decreases lines.len() - i,
    {
        assert(all[i as int] == lines@[i as int]@);
        let found = rss_of(lines[i].as_str());
        proof {
            lemma_first_rss_prefix(all, i as int);
        }
        if let Some(v) = found {
            proof {
                lemma_first_rss_found(all, i + 1);
            }
            return v;
        }
        i = i + 1;
    }
    assert(all.take(lines@.len() as int) =~= all);
    0
}

} // verus!
