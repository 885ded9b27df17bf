use printer::PlatformSupport;
use printer::invoke::ExecOutcome;
use printer::spooler::{
    QueryPlan, custom_get_printers_by_name, get_jobs, get_jobs_by_id, get_printers,
    get_printers_by_name, pause_job, query_result, remove_job, restart_job, resume_job,
};

const PRINTER_COLUMNS: &str = " | Select-Object Name, DriverName, JobCount, PrintProcessor, \
                               PortName, ShareName, ComputerName, PrinterStatus, Shared, Type, \
                               Priority | ConvertTo-Json";
const JOB_COLUMNS: &str = " | Select-Object DocumentName,Id,TotalPages,Position,Size,UserName,\
                           PagesPrinted,JobTime,ComputerName,Datatype,PrinterName,Priority,\
                           SubmittedTime,JobStatus | ConvertTo-Json";

fn script_of(inv: &printer::invoke::CmdInvocation) -> &str {
    assert_eq!(inv.program, "powershell");
    assert_eq!(inv.args.len(), 2);
    assert_eq!(inv.args[0], "-Command");
    inv.args[1].as_str()
}

#[test]
fn printer_enumeration_query() {
    let inv = get_printers();
    let expect = format!(
        "[Console]::OutputEncoding = [System.Text.Encoding]::UTF8; Get-Printer{}",
        PRINTER_COLUMNS
    );
    assert_eq!(script_of(&inv), expect);
}

#[test]
fn printer_enumeration_by_name_query() {
    let inv = get_printers_by_name("HP LaserJet");
    let expect = format!(
        "[Console]::OutputEncoding = [System.Text.Encoding]::UTF8; Get-Printer -Name 'HP \
         LaserJet'{}",
        PRINTER_COLUMNS
    );
    assert_eq!(script_of(&inv), expect);
}

#[test]
fn job_enumeration_query() {
    let inv = get_jobs("HP LaserJet");
    let expect = format!("Get-PrintJob -PrinterName \"HP LaserJet\"{}", JOB_COLUMNS);
    assert_eq!(script_of(&inv), expect);
}

#[test]
fn job_enumeration_by_id_query() {
    let inv = get_jobs_by_id("HP LaserJet", "17");
    let expect = format!("Get-PrintJob -PrinterName \"HP LaserJet\" -ID \"17\"{}", JOB_COLUMNS);
    assert_eq!(script_of(&inv), expect);
}

#[test]
fn job_control_queries() {
    assert_eq!(
        script_of(&resume_job("P", "3")),
        "Resume-PrintJob -PrinterName \"P\" -ID \"3\""
    );
    assert_eq!(
        script_of(&restart_job("P", "3")),
        "Restart-PrintJob -PrinterName \"P\" -ID \"3\""
    );
    assert_eq!(
        script_of(&pause_job("P", "3")),
        "Suspend-PrintJob -PrinterName \"P\" -ID \"3\""
    );
    assert_eq!(
        script_of(&remove_job("P", "3")),
        "Remove-PrintJob -PrinterName \"P\" -ID \"3\""
    );
}

#[test]
fn custom_enumeration_runs_the_query_on_a_supported_platform() {
    match custom_get_printers_by_name("P".to_string(), PlatformSupport::Supported) {
        QueryPlan::Run(inv) => {
            assert!(script_of(&inv).contains("Get-Printer -Name 'P'"));
        },
        QueryPlan::Refused(_) => panic!("expected the query to run"),
    }
}

#[test]
fn custom_enumeration_refuses_on_an_unsupported_platform() {
    match custom_get_printers_by_name("P".to_string(), PlatformSupport::Unsupported) {
        QueryPlan::Run(_) => panic!("expected a refusal"),
        QueryPlan::Refused(message) => assert_eq!(message, "Unsupported OS"),
    }
}

#[test]
fn enumeration_result_is_the_raw_reply_and_is_idempotent() {
    let reply = "[{\"Name\": \"P1\"}, {\"Name\": \"P2\"}]";
    let outcome = |stdout: &str| ExecOutcome {
        started: true,
        exit_ok: true,
        stdout: stdout.to_string(),
        stderr: "".to_string(),
    };
    let first = query_result(outcome(reply));
    let second = query_result(outcome(reply));
    assert_eq!(first, reply);
    assert_eq!(first, second);
}
