use restic_watcher::command::{backup_command, unlock_command, OutputMode};
use restic_watcher::config::{BackupConfig, BackupJobConfig};
use restic_watcher::report::{
    decimal_text, initiating_line, output_line, report_line, scheduled_line, summarize_output, watching_line,
    BackupReport, LogLevel,
};

fn config() -> BackupConfig {
    BackupConfig {
        repo: "sftp:host:/srv/repo".to_string(),
        exclude_file: "/etc/restic/excludes".to_string(),
        password_command: "pass show restic".to_string(),
        logfile: "/var/log/watch.log".to_string(),
        env_path: "/usr/bin:/bin".to_string(),
        restic_path: "/usr/local/bin/restic".to_string(),
    }
}

fn docs() -> BackupJobConfig {
    BackupJobConfig { name: "docs".to_string(), path: "/data/docs".to_string(), throttle: 5 }
}

#[test]
fn backup_command_arguments_in_order() {
    let c = backup_command(&docs(), &config());
    assert_eq!(c.program, "/usr/local/bin/restic");
    assert_eq!(
        c.args,
        vec![
            "-r",
            "sftp:host:/srv/repo",
            "--json",
            "-q",
            "--exclude-file",
            "/etc/restic/excludes",
            "backup",
            "/data/docs"
        ]
    );
    assert_eq!(
        c.env,
        vec![
            ("PATH".to_string(), "/usr/bin:/bin".to_string()),
            ("RESTIC_PASSWORD_COMMAND".to_string(), "pass show restic".to_string())
        ]
    );
    assert_eq!(c.output, OutputMode::Captured);
}

#[test]
fn unlock_command_arguments() {
    let c = unlock_command(&config());
    assert_eq!(c.program, "/usr/local/bin/restic");
    assert_eq!(c.args, vec!["-r", "sftp:host:/srv/repo", "unlock"]);
    assert_eq!(c.env.len(), 2);
    assert_eq!(c.env[0].1, "/usr/bin:/bin");
    assert_eq!(c.output, OutputMode::Inherited);
}

#[test]
fn decimal_text_values() {
    assert_eq!(decimal_text(0), "0");
    assert_eq!(decimal_text(7), "7");
    assert_eq!(decimal_text(10), "10");
    assert_eq!(decimal_text(12345), "12345");
    assert_eq!(decimal_text(u64::MAX), "18446744073709551615");
}

#[test]
fn job_log_lines() {
    assert_eq!(scheduled_line(&docs()), "FS Changes detected on /data/docs, backup scheduled in 5 seconds.");
    assert_eq!(initiating_line(&docs()), "docs Backup on /data/docs initiating.");
    assert_eq!(watching_line(&docs()), "Started FSEvent monitoring on /data/docs named docs - interval=5");
}

#[test]
fn summary_reports_values_unchanged() {
    let line = output_line("{\"files_new\":3,\"files_changed\":7,\"total_duration\":12.5}");
    assert_eq!(line.level, LogLevel::Info);
    assert_eq!(line.text, "Backup Complete. - 3 new, 7 changed, finished in 12.5 seconds.");
}

#[test]
fn summary_with_surrounding_whitespace_and_other_members() {
    let out = "{\"message_type\":\"summary\",\"files_new\":0,\"files_changed\":12,\"total_duration\":1.25}\n";
    let line = output_line(out);
    assert_eq!(line.level, LogLevel::Info);
    assert_eq!(line.text, "Backup Complete. - 0 new, 12 changed, finished in 1.25 seconds.");
}

#[test]
fn missing_members_keep_the_raw_output() {
    match summarize_output("{\"files_new\":1}") {
        BackupReport::Unparsed { raw } => assert_eq!(raw, "{\"files_new\":1}"),
        BackupReport::Summary { .. } => panic!("expected raw output"),
    }
}

#[test]
fn empty_object_is_logged_raw() {
    let line = output_line("{}");
    assert_eq!(line.level, LogLevel::Error);
    assert_eq!(line.text, "Unable to parse restic response json: Raw resp: {}");
}

#[test]
fn json_number_is_logged_raw() {
    let line = output_line("42");
    assert_eq!(line.level, LogLevel::Error);
    assert_eq!(line.text, "Unable to parse restic response json: Raw resp: 42");
}

#[test]
fn null_members_are_reported_as_null() {
    let line = output_line("{\"files_new\":null,\"files_changed\":2,\"total_duration\":\"3s\"}");
    assert_eq!(line.level, LogLevel::Info);
    assert_eq!(line.text, "Backup Complete. - null new, 2 changed, finished in \"3s\" seconds.");
}

#[test]
fn empty_output_is_logged_raw() {
    let line = output_line("");
    assert_eq!(line.level, LogLevel::Error);
    assert_eq!(line.text, "Unable to parse restic response json: Raw resp: ");
}

#[test]
fn malformed_output_is_logged_verbatim() {
    let raw = "Fatal: unable to open repository\n";
    let line = output_line(raw);
    assert_eq!(line.level, LogLevel::Error);
    assert_eq!(line.text, format!("Unable to parse restic response json: Raw resp: {}", raw));
    assert!(!line.text.contains("Backup Complete."));
}

#[test]
fn two_json_lines_are_not_one_document() {
    let raw = "{\"files_new\":1}\n{\"files_new\":2}\n";
    match summarize_output(raw) {
        BackupReport::Unparsed { raw: r } => assert_eq!(r, raw),
        BackupReport::Summary { .. } => panic!("expected raw output"),
    }
}

#[test]
fn report_line_of_each_kind() {
    let s = BackupReport::Summary {
        files_new: "a".to_string(),
        files_changed: "b".to_string(),
        total_duration: "c".to_string(),
    };
    let l = report_line(&s);
    assert_eq!(l.level, LogLevel::Info);
    assert_eq!(l.text, "Backup Complete. - a new, b changed, finished in c seconds.");
    let u = BackupReport::Unparsed { raw: "x y".to_string() };
    let l = report_line(&u);
    assert_eq!(l.level, LogLevel::Error);
    assert_eq!(l.text, "Unable to parse restic response json: Raw resp: x y");
}
