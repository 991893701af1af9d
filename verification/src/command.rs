//! The command that sets an interface's address, as plain values: which
//! program, with which arguments, and whether it is run at all.

use vstd::prelude::*;
use vstd::string::StringExecFns;
use rand::rngs::ThreadRng;
use crate::address::{is_generated_mac_address, new_random_mac_address};
use crate::controller::Outcome;
use crate::random::VendorPicker;
use crate::text::{join, spec_join};
use crate::vendor::Vendor;

verus! {

/// The family of systems whose command sets the address.
#[derive(Clone, Copy, Debug, PartialEq, Eq, Structural)]
pub enum Platform {
    /// Linux, where `ip` configures interfaces.
    Linux,
    /// The other Unix systems, where `ifconfig` does.
    OtherUnix,
}

impl Platform {
    /// The program that configures interfaces on this platform.
    pub open spec fn spec_program(self) -> Seq<char> {
        match self {
            Platform::Linux => "ip"@,
            Platform::OtherUnix => "ifconfig"@,
        }
    }

    /// The program that configures interfaces on this platform.
    pub fn program(self) -> (name: &'static str)
        ensures
            name@ == self.spec_program(),
    {
        match self {
            Platform::Linux => "ip",
            Platform::OtherUnix => "ifconfig",
        }
    }
}

/// Which interface is to get which address.
pub struct SetMacAddressSpec<'s> {
    pub interface_name: &'s str,
    pub new_mac_address: &'s str,
}

/// A program and the arguments to run it with.
#[derive(Debug)]
pub struct SetMacAddressCommand {
    pub program: String,
    pub args: Vec<String>,
}

/// The arguments with which the platform's program gives the interface its
/// new address.
pub open spec fn spec_set_mac_address_args(
    platform: Platform,
    interface_name: Seq<char>,
    new_mac_address: Seq<char>,
) -> Seq<Seq<char>> {
    match platform {
        Platform::Linux => seq![
            "link"@,
            "set"@,
            "dev"@,
            interface_name,
            "addr"@,
            new_mac_address,
        ],
        Platform::OtherUnix => seq![interface_name, "ether"@, new_mac_address],
    }
}

/// The line that a dry run shows in place of running `program` with `args`.
pub open spec fn spec_dry_run_notice(program: Seq<char>, args: Seq<Seq<char>>) -> Seq<char> {
    "Dry-running enabled; would otherwise run `"@ + program + " "@ + spec_join(args, " "@) + "`"@
}

/// The command that gives the interface its new address on `platform`.
pub fn new_set_mac_address(platform: Platform, spec: SetMacAddressSpec<'_>) -> (command:
    SetMacAddressCommand)
    ensures
        command.program@ == platform.spec_program(),
        command.args.deep_view() == spec_set_mac_address_args(
            platform,
            spec.interface_name@,
            spec.new_mac_address@,
        ),
{
    let mut args: Vec<String> = Vec::new();
    match platform {
        Platform::Linux => {
            args.push("link".to_owned());
            args.push("set".to_owned());
            args.push("dev".to_owned());
            args.push(spec.interface_name.to_owned());
            args.push("addr".to_owned());
            args.push(spec.new_mac_address.to_owned());
        },
        Platform::OtherUnix => {
            args.push(spec.interface_name.to_owned());
            args.push("ether".to_owned());
            args.push(spec.new_mac_address.to_owned());
        },
    }
    assert(args.deep_view() =~= spec_set_mac_address_args(
        platform,
        spec.interface_name@,
        spec.new_mac_address@,
    ));
    SetMacAddressCommand { program: platform.program().to_owned(), args }
}

/// The line that a dry run shows in place of running `command`.
pub fn dry_run_notice(command: &SetMacAddressCommand) -> (notice: String)
    ensures
        notice@ == spec_dry_run_notice(command.program@, command.args.deep_view()),
{
    let mut notice = "Dry-running enabled; would otherwise run `".to_owned();
    notice.append(command.program.as_str());
    notice.append(" ");
    let args = join(&command.args, " ");
    notice.append(args.as_str());
    notice.append("`");
    notice
}

/// What is to be done about a change of address.
#[derive(Debug)]
pub enum Invocation {
    /// Nothing is run; `notice` says what would have been.
    DryRun { notice: String },
    /// `command` is to be run.
    Execute { command: SetMacAddressCommand },
}

/// A change of address that has been decided on and not yet carried out.
#[derive(Debug)]
pub struct MacAddressChange {
    pub vendor: Vendor,
    pub new_address: String,
    pub invocation: Invocation,
}

/// Whether `invocation` is what giving `interface_name` the address
/// `new_address` on `platform` asks for: in a dry run the notice and no
/// command, otherwise the command.
pub open spec fn is_invocation_for(
    invocation: Invocation,
    platform: Platform,
    interface_name: Seq<char>,
    new_address: Seq<char>,
    dry_run: bool,
) -> bool {
    let args = spec_set_mac_address_args(platform, interface_name, new_address);
    match invocation {
        Invocation::DryRun { notice } => dry_run && notice@ == spec_dry_run_notice(
            platform.spec_program(),
            args,
        ),
        Invocation::Execute { command } => !dry_run && command.program@ == platform.spec_program()
            && command.args.deep_view() == args,
    }
}

/// Decides how the interface is to get `new_address`, an address of
/// `vendor`. A dry run yields no command, whatever the interface's name.
pub fn plan_mac_address_change(
    platform: Platform,
    interface_name: &str,
    vendor: Vendor,
    new_address: String,
    dry_run: bool,
) -> (change: MacAddressChange)
    ensures
        change.vendor == vendor,
        change.new_address == new_address,
        is_invocation_for(change.invocation, platform, interface_name@, new_address@, dry_run),
{
    let command = new_set_mac_address(
        platform,
        SetMacAddressSpec { interface_name, new_mac_address: new_address.as_str() },
    );
    let invocation = if dry_run {
        Invocation::DryRun { notice: dry_run_notice(&command) }
    } else {
        Invocation::Execute { command }
    };
    MacAddressChange { vendor, new_address, invocation }
}

/// Draws a vendor and a fresh address of it, and decides how the interface
/// is to get that address.
pub fn set_mac_address<'r>(
    rng: &mut ThreadRng,
    picker: &mut VendorPicker<'r>,
    platform: Platform,
    interface_name: &str,
    dry_run: bool,
) -> (change: MacAddressChange)
    ensures
        is_generated_mac_address(change.vendor, change.new_address@),
        is_invocation_for(
            change.invocation,
            platform,
            interface_name@,
            change.new_address@,
            dry_run,
        ),
{
    let (vendor, new_address) = new_random_mac_address(rng, picker);
    plan_mac_address_change(platform, interface_name, vendor, new_address, dry_run)
}

impl MacAddressChange {
    /// What the attempt comes to when running the command, if it was run,
    /// went wrong as `failure` describes or, with no failure, went well.
    pub open spec fn spec_conclude(self, failure: Option<String>) -> Outcome {
        match (self.invocation, failure) {
            (Invocation::Execute { .. }, Some(description)) => Err(description),
            _ => Ok((self.new_address, self.vendor)),
        }
    }

    /// What the attempt came to. `failure` describes what went wrong when the
    /// command was run, if anything did. A dry run runs nothing and so
    /// always succeeds.
    pub fn conclude(self, failure: Option<String>) -> (outcome: Outcome)
        ensures
            outcome == self.spec_conclude(failure),
    {
        match (self.invocation, failure) {
            (Invocation::Execute { .. }, Some(description)) => Err(description),
            _ => Ok((self.new_address, self.vendor)),
        }
    }
}

/// A dry run holds no command to run and never fails, whatever the
/// interface is called and whatever is reported back.
pub proof fn law_dry_run_never_fails(
    change: MacAddressChange,
    platform: Platform,
    interface_name: Seq<char>,
    failure: Option<String>,
)
    requires
        is_invocation_for(change.invocation, platform, interface_name, change.new_address@, true),
    ensures
        change.invocation is DryRun,
        change.spec_conclude(failure) == Ok::<(String, Vendor), String>(
            (change.new_address, change.vendor),
        ),
{
}

/// Outside a dry run the attempt fails exactly when running the command did,
/// and with the same description.
pub proof fn law_real_run_reports_failure(
    change: MacAddressChange,
    platform: Platform,
    interface_name: Seq<char>,
    failure: Option<String>,
)
    requires
        is_invocation_for(change.invocation, platform, interface_name, change.new_address@, false),
    ensures
        change.invocation is Execute,
        failure is None ==> change.spec_conclude(failure) is Ok,
        failure matches Some(description) ==> change.spec_conclude(failure) == Err::<
            (String, Vendor),
            String,
        >(description),
{
}

} // verus!
