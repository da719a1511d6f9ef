use random_manager::ssh::aws::{
    local_remove_directory_command, local_remove_file_command, Command, Commands,
};

fn sample(profile: Option<String>) -> Command {
    Command {
        ssh_key_path: "/key.pem".to_string(),
        user_name: "ubuntu".to_string(),
        region: "us-west-2".to_string(),
        availability_zone: "us-west-2a".to_string(),
        instance_id: "i-123".to_string(),
        instance_state: "running".to_string(),
        ip_mode: "elastic".to_string(),
        public_ip: "1.2.3.4".to_string(),
        profile,
    }
}

#[test]
fn test_run_command() {
    let c = sample(None);
    assert_eq!(
        c.run_command("ls -la"),
        "chmod 400 /key.pem && ssh -o \"StrictHostKeyChecking no\" -i /key.pem ubuntu@1.2.3.4 'ls -la'"
    );
}

#[test]
fn test_ssm_start_session_command() {
    let c = sample(None);
    assert_eq!(
        c.ssm_start_session_command(),
        "aws ssm start-session --region us-west-2 --target i-123"
    );
}

#[test]
fn test_scp_commands() {
    let c = sample(None);
    assert_eq!(
        c.download_file_command("/r.txt", "/l.txt"),
        "chmod 400 /key.pem && scp -i /key.pem ubuntu@1.2.3.4:/r.txt /l.txt"
    );
    assert_eq!(
        c.send_file_command("/l.txt", "/r.txt"),
        "chmod 400 /key.pem && scp -i /key.pem /l.txt ubuntu@1.2.3.4:/r.txt"
    );
    assert_eq!(
        c.download_directory_command("/rd", "/ld"),
        "chmod 400 /key.pem && scp -i /key.pem -r ubuntu@1.2.3.4:/rd /ld"
    );
    assert_eq!(
        c.send_directory_command("/ld", "/rd"),
        "chmod 400 /key.pem && scp -i /key.pem -r /ld ubuntu@1.2.3.4:/rd"
    );
}

#[test]
fn test_remote_and_local_helpers() {
    let c = sample(None);
    assert_eq!(
        c.remote_remove_command("/r.txt"),
        "chmod 400 /key.pem && ssh -o \"StrictHostKeyChecking no\" -i /key.pem ubuntu@1.2.3.4 'sudo rm -f /r.txt || true'"
    );
    assert_eq!(
        c.remote_list_command("/r.txt"),
        "chmod 400 /key.pem && ssh -o \"StrictHostKeyChecking no\" -i /key.pem ubuntu@1.2.3.4 'ls /r.txt'"
    );
    assert_eq!(local_remove_file_command("/l.txt"), "rm -f /l.txt || true");
    assert_eq!(local_remove_directory_command("/ld"), "rm -rf /ld || true");
}

#[test]
fn test_to_text() {
    let c = sample(None);
    let expected = "# change SSH key permission
chmod 400 /key.pem

# instance 'i-123' (running, us-west-2a) -- ip mode 'elastic'
ssh -o \"StrictHostKeyChecking no\" -i /key.pem ubuntu@1.2.3.4
ssh -o \"StrictHostKeyChecking no\" -i /key.pem ubuntu@1.2.3.4 'tail -10 /var/log/cloud-init-output.log'
ssh -o \"StrictHostKeyChecking no\" -i /key.pem ubuntu@1.2.3.4 'tail -f /var/log/cloud-init-output.log'

# download a remote file to local machine
scp -i /key.pem ubuntu@1.2.3.4:REMOTE_FILE_PATH LOCAL_FILE_PATH
scp -i /key.pem -r ubuntu@1.2.3.4:REMOTE_DIRECTORY_PATH LOCAL_DIRECTORY_PATH

# upload a local file to remote machine
scp -i /key.pem LOCAL_FILE_PATH ubuntu@1.2.3.4:REMOTE_FILE_PATH
scp -i /key.pem -r LOCAL_DIRECTORY_PATH ubuntu@1.2.3.4:REMOTE_DIRECTORY_PATH

# AWS SSM session (requires a running SSM agent)
# https://github.com/aws/amazon-ssm-agent/issues/131
aws ssm start-session --region us-west-2 --target i-123
aws ssm start-session --region us-west-2 --target i-123 --document-name 'AWS-StartNonInteractiveCommand' --parameters command=\"sudo tail -10 /var/log/cloud-init-output.log\"
aws ssm start-session --region us-west-2 --target i-123 --document-name 'AWS-StartInteractiveCommand' --parameters command=\"bash -l\"
";
    assert_eq!(c.to_text(), expected);
}

#[test]
fn test_to_text_with_profile() {
    let c = sample(Some("dev".to_string()));
    let text = c.to_text();
    assert!(text.contains(
        "aws ssm start-session --profile dev --region us-west-2 --target i-123\n"
    ));
    assert!(text.contains(
        "aws ssm start-session --profile dev --region us-west-2 --target i-123 --document-name 'AWS-StartInteractiveCommand' --parameters command=\"bash -l\"\n"
    ));
}

#[test]
fn test_script_text() {
    let c1 = sample(None);
    let c2 = sample(Some("dev".to_string()));
    let script = Commands(vec![c1.clone(), c2.clone()]).script_text();
    let expected = format!("#!/bin/bash\n\n{}\n\n{}\n\n", c1.to_text(), c2.to_text());
    assert_eq!(script, expected);

    let empty = Commands(vec![]).script_text();
    assert_eq!(empty, "#!/bin/bash\n\n");
}
