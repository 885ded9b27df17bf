//! Spooler query and control: printer enumeration, job enumeration, and job
//! state changes (resume, restart, pause, remove).
//!
//! Each operation builds one OS shell-level query; the embedding runtime runs
//! it through the blocking bridge and the OS tool's raw structured output is
//! passed through unparsed — the OS is the source of truth for "not found".

use vstd::prelude::*;

use crate::PlatformSupport;
use crate::invoke::{CmdInvocation, ExecOutcome};

verus! {

/// The column list requested from the printer enumeration.
pub open spec fn spec_printer_columns() -> Seq<char> {
    " | Select-Object Name, DriverName, JobCount, PrintProcessor, PortName, ShareName, ComputerName, PrinterStatus, Shared, Type, Priority | ConvertTo-Json"@
}

/// The query text that lists every printer.
pub open spec fn spec_get_printers_script() -> Seq<char> {
    "[Console]::OutputEncoding = [System.Text.Encoding]::UTF8; Get-Printer"@
        + spec_printer_columns()
}

/// The query text that lists the printers with the given name.
pub open spec fn spec_get_printers_by_name_script(name: Seq<char>) -> Seq<char> {
    "[Console]::OutputEncoding = [System.Text.Encoding]::UTF8; Get-Printer -Name '"@ + name
        + "'"@ + spec_printer_columns()
}

/// The column list requested from the job enumeration.
pub open spec fn spec_job_columns() -> Seq<char> {
    " | Select-Object DocumentName,Id,TotalPages,Position,Size,UserName,PagesPrinted,JobTime,ComputerName,Datatype,PrinterName,Priority,SubmittedTime,JobStatus | ConvertTo-Json"@
}

/// The query text that lists the jobs queued on a printer.
pub open spec fn spec_get_jobs_script(printer: Seq<char>) -> Seq<char> {
    "Get-PrintJob -PrinterName \""@ + printer + "\""@ + spec_job_columns()
}

/// The query text that lists one job on a printer.
pub open spec fn spec_get_jobs_by_id_script(printer: Seq<char>, job_id: Seq<char>) -> Seq<char> {
    "Get-PrintJob -PrinterName \""@ + printer + "\" -ID \""@ + job_id + "\""@
        + spec_job_columns()
}

/// The command text that applies `cmdlet` to one job on a printer.
pub open spec fn spec_job_control_script(
    cmdlet: Seq<char>,
    printer: Seq<char>,
    job_id: Seq<char>,
) -> Seq<char> {
    cmdlet + " -PrinterName \""@ + printer + "\" -ID \""@ + job_id + "\""@
}

/// Whether an invocation runs the given shell-level query text.
pub open spec fn spec_is_shell_query(inv: CmdInvocation, script: Seq<char>) -> bool {
    &&& inv.program@ == "powershell"@
    &&& inv.args.deep_view() == seq!["-Command"@, script]
}

/// Wraps a query text into the invocation the runtime is to spawn.
fn shell_query(script: String) -> (inv: CmdInvocation)
    ensures
        spec_is_shell_query(inv, script@),
{
    let program = String::from_str("powershell");
    let mut args: Vec<String> = Vec::new();
    args.push(String::from_str("-Command"));
    args.push(script);
    proof {
        assert(args.deep_view() =~= seq!["-Command"@, script@]);
    }
    CmdInvocation { program, args }
}

/// The invocation that enumerates every printer the OS knows.
pub fn get_printers() -> (inv: CmdInvocation)
    ensures
        spec_is_shell_query(inv, spec_get_printers_script()),
{
    let mut script = String::from_str(
        "[Console]::OutputEncoding = [System.Text.Encoding]::UTF8; Get-Printer",
    );
    script.append(
        " | Select-Object Name, DriverName, JobCount, PrintProcessor, PortName, ShareName, ComputerName, PrinterStatus, Shared, Type, Priority | ConvertTo-Json",
    );
    shell_query(script)
}

/// The invocation that enumerates the printers with the given name.
pub fn get_printers_by_name(printername: &str) -> (inv: CmdInvocation)
    ensures
        spec_is_shell_query(inv, spec_get_printers_by_name_script(printername@)),
{
    let mut script = String::from_str(
        "[Console]::OutputEncoding = [System.Text.Encoding]::UTF8; Get-Printer -Name '",
    );
    script.append(printername);
    script.append("'");
    script.append(
        " | Select-Object Name, DriverName, JobCount, PrintProcessor, PortName, ShareName, ComputerName, PrinterStatus, Shared, Type, Priority | ConvertTo-Json",
    );
    shell_query(script)
}

/// Appends the job column list and wraps the query.
fn finish_job_query(script: String) -> (inv: CmdInvocation)
    ensures
        spec_is_shell_query(inv, script@ + spec_job_columns()),
{
    let mut script = script;
    script.append(
        " | Select-Object DocumentName,Id,TotalPages,Position,Size,UserName,PagesPrinted,JobTime,ComputerName,Datatype,PrinterName,Priority,SubmittedTime,JobStatus | ConvertTo-Json",
    );
    shell_query(script)
}

/// The invocation that lists the jobs queued on a printer.
pub fn get_jobs(printername: &str) -> (inv: CmdInvocation)
    ensures
        spec_is_shell_query(inv, spec_get_jobs_script(printername@)),
{
    let mut script = String::from_str("Get-PrintJob -PrinterName \"");
    script.append(printername);
    script.append("\"");
    proof {
        assert(script@ =~= "Get-PrintJob -PrinterName \""@ + printername@ + "\""@);
    }
    finish_job_query(script)
}

/// The invocation that lists one job on a printer.
pub fn get_jobs_by_id(printername: &str, jobid: &str) -> (inv: CmdInvocation)
    ensures
        spec_is_shell_query(inv, spec_get_jobs_by_id_script(printername@, jobid@)),
{
    let mut script = String::from_str("Get-PrintJob -PrinterName \"");
    script.append(printername);
    script.append("\" -ID \"");
    script.append(jobid);
    script.append("\"");
    proof {
        assert(script@ =~= "Get-PrintJob -PrinterName \""@ + printername@ + "\" -ID \""@
            + jobid@ + "\""@);
    }
    finish_job_query(script)
}

/// Builds the invocation that applies one job-control cmdlet.
fn job_control(cmdlet: &str, printername: &str, jobid: &str) -> (inv: CmdInvocation)
    ensures
        spec_is_shell_query(inv, spec_job_control_script(cmdlet@, printername@, jobid@)),
{
    let mut script = cmdlet.to_owned();
    script.append(" -PrinterName \"");
    script.append(printername);
    script.append("\" -ID \"");
    script.append(jobid);
    script.append("\"");
    proof {
        assert(script@ =~= spec_job_control_script(cmdlet@, printername@, jobid@));
    }
    shell_query(script)
}

/// The invocation that resumes a paused job.
pub fn resume_job(printername: &str, jobid: &str) -> (inv: CmdInvocation)
    ensures
        spec_is_shell_query(
            inv,
            spec_job_control_script("Resume-PrintJob"@, printername@, jobid@),
        ),
{
    job_control("Resume-PrintJob", printername, jobid)
}

/// The invocation that restarts a job from its beginning.
pub fn restart_job(printername: &str, jobid: &str) -> (inv: CmdInvocation)
    ensures
        spec_is_shell_query(
            inv,
            spec_job_control_script("Restart-PrintJob"@, printername@, jobid@),
        ),
{
    job_control("Restart-PrintJob", printername, jobid)
}

/// The invocation that pauses a job.
pub fn pause_job(printername: &str, jobid: &str) -> (inv: CmdInvocation)
    ensures
        spec_is_shell_query(
            inv,
            spec_job_control_script("Suspend-PrintJob"@, printername@, jobid@),
        ),
{
    job_control("Suspend-PrintJob", printername, jobid)
}

/// The invocation that removes a job from the queue.
pub fn remove_job(printername: &str, jobid: &str) -> (inv: CmdInvocation)
    ensures
        spec_is_shell_query(
            inv,
            spec_job_control_script("Remove-PrintJob"@, printername@, jobid@),
        ),
{
    job_control("Remove-PrintJob", printername, jobid)
}

/// A spooler query is either an invocation to run, or a refusal on a platform
/// without printer support.
pub enum QueryPlan {
    Run(CmdInvocation),
    Refused(String),
}

/// What a query hands back: the OS tool's raw output, unparsed.
pub open spec fn spec_query_result(outcome: ExecOutcome) -> Seq<char> {
    outcome.stdout@
}

/// Plans the printer-enumeration-by-name operation: the query on a supported
/// platform, the fixed refusal text on an unsupported one.
pub fn custom_get_printers_by_name(printername: String, support: PlatformSupport) -> (plan:
    QueryPlan)
    ensures
        support is Supported ==> (plan matches QueryPlan::Run(inv) && spec_is_shell_query(
            inv,
            spec_get_printers_by_name_script(printername@),
        )),
        support is Unsupported ==> (plan matches QueryPlan::Refused(m) && m@
            == "Unsupported OS"@),
{
    match support {
        PlatformSupport::Supported => QueryPlan::Run(get_printers_by_name(printername.as_str())),
        PlatformSupport::Unsupported => QueryPlan::Refused(String::from_str("Unsupported OS")),
    }
}

/// The result string of a completed spooler query: the reply's standard
/// output, passed through unparsed.
pub fn query_result(outcome: ExecOutcome) -> (r: String)
    ensures
        r@ == spec_query_result(outcome),
{
    outcome.stdout
}

/// Printer enumeration is idempotent: the enumeration invocation is a
/// constant (its builder pins every call to the same query text), and the
/// returned result is a function of the spooler's reply alone — so two
/// enumerations between which the spooler's state did not change yield
/// structurally equivalent output.
pub proof fn lemma_enumeration_idempotent(first: ExecOutcome, second: ExecOutcome)
    requires
        first.stdout@ == second.stdout@,
    ensures
        spec_query_result(first) == spec_query_result(second),
{
}

} // verus!
