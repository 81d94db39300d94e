//! `sysinfo`: a report of the application's versions and ECS counts.
use crate::command::builder::{
    clap_command_about_of, clap_command_aliases_of, clap_command_args_of, clap_command_consistent,
    clap_command_name_of, clap_command_plain, clap_command_subcommand_keys_of,
    clap_command_subcommands_of, command_with_about,
};
use crate::text::{concat, push_char};
use vstd::prelude::*;

verus! {

/// The system information command.
#[derive(Clone, Copy, Debug, Default)]
pub struct SysInfoCommand;

/// The decimal digit for `d < 10`.
pub open spec fn digit_char(d: nat) -> char {
    if d == 0 {
        '0'
    } else if d == 1 {
        '1'
    } else if d == 2 {
        '2'
    } else if d == 3 {
        '3'
    } else if d == 4 {
        '4'
    } else if d == 5 {
        '5'
    } else if d == 6 {
        '6'
    } else if d == 7 {
        '7'
    } else if d == 8 {
        '8'
    } else {
        '9'
    }
}

/// `n` written in decimal, without leading zeros.
pub open spec fn decimal(n: nat) -> Seq<char>
    decreases n,
{
    if n < 10 {
        seq![digit_char(n)]
    } else {
        decimal(n / 10).push(digit_char(n % 10))
    }
}

fn digit(d: usize) -> (c: char)
    requires
        d < 10,
    ensures
        c == digit_char(d as nat),
{
    if d == 0 {
        '0'
    } else if d == 1 {
        '1'
    } else if d == 2 {
        '2'
    } else if d == 3 {
        '3'
    } else if d == 4 {
        '4'
    } else if d == 5 {
        '5'
    } else if d == 6 {
        '6'
    } else if d == 7 {
        '7'
    } else if d == 8 {
        '8'
    } else {
        '9'
    }
}

/// `n` in decimal, as `format!("{}", n)` writes it.
pub fn decimal_string(n: usize) -> (s: String)
    ensures
        s@ == decimal(n as nat),
    decreases n,
{
    if n < 10 {
        let mut s = String::new();
        push_char(&mut s, digit(n));
        proof {
            assert(s@ =~= seq![digit_char(n as nat)]);
        }
        s
    } else {
        let mut s = decimal_string(n / 10);
        push_char(&mut s, digit(n % 10));
        s
    }
}

/// The report: versions and counts, one per line, then the performance lines
/// when diagnostics are available, else a note that they are not.
pub open spec fn sysinfo_text(
    bevy_version: Seq<char>,
    rust_version: Seq<char>,
    entities: nat,
    components: nat,
    resources: nat,
    diagnostics: Option<Seq<Seq<char>>>,
) -> Seq<char> {
    "Bevy Version: "@ + bevy_version + "\n"@ + "Rust Version: "@ + rust_version + "\n"@
        + "Entity Count: "@ + decimal(entities) + "\n"@ + "Component Count: "@ + decimal(components)
        + "\n"@ + "Resource Count: "@ + decimal(resources) + "\n"@ + match diagnostics {
        Some(lines) => lines_text(lines),
        None => "\nNote: Diagnostics not available. Enable `diagnostics` feature to see performance metrics.\n"@,
    }
}

/// Each line followed by a newline.
pub open spec fn lines_text(lines: Seq<Seq<char>>) -> Seq<char>
    decreases lines.len(),
{
    if lines.len() == 0 {
        Seq::empty()
    } else {
        lines_text(lines.drop_last()) + lines.last() + "\n"@
    }
}

/// `a`, then `label`, then `value`, then a newline.
fn append_line(a: String, label: &str, value: &str) -> (s: String)
    ensures
        s@ == a@ + label@ + value@ + "\n"@,
{
    let s = concat(a.as_str(), label);
    let s = concat(s.as_str(), value);
    concat(s.as_str(), "\n")
}

impl SysInfoCommand {
    pub fn command(&self) -> (cmd: clap::Command)
        ensures
            clap_command_name_of(cmd) == "sysinfo"@,
            clap_command_about_of(cmd) == Some("Show system information"@),
            clap_command_aliases_of(cmd) == Seq::<Seq<char>>::empty(),
            clap_command_args_of(cmd).len() == 0,
            clap_command_subcommands_of(cmd) == Seq::<Seq<char>>::empty(),
            clap_command_subcommand_keys_of(cmd) == Seq::<Seq<char>>::empty(),
            clap_command_plain(cmd),
            clap_command_consistent(cmd),
    {
        command_with_about("sysinfo", "Show system information")
    }

    /// The report for the given versions and counts; `diagnostics` holds the
    /// already formatted performance lines when diagnostics are available.
    pub fn report(
        &self,
        bevy_version: &str,
        rust_version: &str,
        entities: usize,
        components: usize,
        resources: usize,
        diagnostics: Option<Vec<String>>,
    ) -> (s: String)
        ensures
            s@ == sysinfo_text(
                bevy_version@,
                rust_version@,
                entities as nat,
                components as nat,
                resources as nat,
                match diagnostics {
                    Some(v) => Some(crate::text::views(v@)),
                    None => None,
                },
            ),
    {
        let out = append_line(String::new(), "Bevy Version: ", bevy_version);
        let out = append_line(out, "Rust Version: ", rust_version);
        let out = append_line(out, "Entity Count: ", decimal_string(entities).as_str());
        let out = append_line(out, "Component Count: ", decimal_string(components).as_str());
        let mut out = append_line(out, "Resource Count: ", decimal_string(resources).as_str());
        let ghost head = out@;
        match diagnostics {
            Some(lines) => {
                let mut i: usize = 0;
                proof {
                    assert(crate::text::views(lines@).take(0) =~= Seq::<Seq<char>>::empty());
                    assert(out@ =~= head + lines_text(crate::text::views(lines@).take(0)));
                }
                while i < lines.len()
                    invariant
                        i <= lines.len(),
                        out@ == head + lines_text(crate::text::views(lines@).take(i as int)),
                    decreases lines.len() - i,
                {
                    out = append_line(out, "", lines[i].as_str());
                    proof {
                        let vs = crate::text::views(lines@);
                        assert(vs.take(i + 1).drop_last() =~= vs.take(i as int));
                        assert(vs[i as int] == lines@[i as int]@);
                        reveal_strlit("");
                        assert(""@ =~= Seq::<char>::empty());
                        assert(out@ =~= head + lines_text(vs.take(i + 1)));
                    }
                    i = i + 1;
                }
                proof {
                    assert(crate::text::views(lines@).take(i as int) =~= crate::text::views(lines@));
                }
                proof {
                    assert(head =~= "Bevy Version: "@ + bevy_version@ + "\n"@ + "Rust Version: "@
                        + rust_version@ + "\n"@ + "Entity Count: "@ + decimal(entities as nat) + "\n"@
                        + "Component Count: "@ + decimal(components as nat) + "\n"@
                        + "Resource Count: "@ + decimal(resources as nat) + "\n"@);
                }
                out
            },
            None => {
                let s = concat(
                    out.as_str(),
                    "\nNote: Diagnostics not available. Enable `diagnostics` feature to see performance metrics.\n",
                );
                proof {
                    assert(s@ =~= sysinfo_text(
                        bevy_version@,
                        rust_version@,
                        entities as nat,
                        components as nat,
                        resources as nat,
                        None,
                    ));
                }
                s
            },
        }
    }
}

} // verus!
