//! Shell command strings for reaching an AWS instance over SSH, SCP and SSM.

use vstd::prelude::*;
use vstd::string::StringExecFns;

verus! {

/// The pieces that identify a remote instance and how to reach it.
#[derive(Debug, Clone, PartialEq, Eq)]
pub struct Command {
    pub ssh_key_path: String,
    pub user_name: String,

    pub region: String,
    pub availability_zone: String,

    pub instance_id: String,
    pub instance_state: String,

    pub ip_mode: String,
    pub public_ip: String,

    pub profile: Option<String>,
}

/// The `--profile <name> ` flag handed to the aws command, or nothing.
pub open spec fn profile_flag(c: Command) -> Seq<char> {
    match c.profile {
        Some(v) => "--profile "@ + v@ + " "@,
        None => Seq::<char>::empty(),
    }
}

/// The ssh invocation that reaches the instance: key file, user and address.
pub open spec fn ssh_base(c: Command) -> Seq<char> {
    "ssh -o \"StrictHostKeyChecking no\" -i "@ + c.ssh_key_path@ + " "@ + c.user_name@ + "@"@
        + c.public_ip@
}

/// The `chmod 400 <key> && ` prefix that guards every remote invocation.
pub open spec fn chmod_prefix(c: Command) -> Seq<char> {
    "chmod 400 "@ + c.ssh_key_path@ + " && "@
}

/// The command that runs `cmd` on the instance over ssh.
pub open spec fn run_command_view(c: Command, cmd: Seq<char>) -> Seq<char> {
    chmod_prefix(c) + ssh_base(c) + " '"@ + cmd + "'"@
}

/// The command that opens an SSM session to the instance.
pub open spec fn ssm_start_session_view(c: Command) -> Seq<char> {
    "aws ssm start-session --region "@ + c.region@ + " --target "@ + c.instance_id@
}

/// The scp command that downloads `remote` on the instance to `local`.
pub open spec fn download_file_command_view(c: Command, remote: Seq<char>, local: Seq<char>) -> Seq<
    char,
> {
    chmod_prefix(c) + "scp -i "@ + c.ssh_key_path@ + " "@ + c.user_name@ + "@"@ + c.public_ip@
        + ":"@ + remote + " "@ + local
}

/// The scp command that uploads `local` to `remote` on the instance.
pub open spec fn send_file_command_view(c: Command, local: Seq<char>, remote: Seq<char>) -> Seq<
    char,
> {
    chmod_prefix(c) + "scp -i "@ + c.ssh_key_path@ + " "@ + local + " "@ + c.user_name@ + "@"@
        + c.public_ip@ + ":"@ + remote
}

/// The recursive scp command that downloads the directory `remote` to `local`.
pub open spec fn download_directory_command_view(
    c: Command,
    remote: Seq<char>,
    local: Seq<char>,
) -> Seq<char> {
    chmod_prefix(c) + "scp -i "@ + c.ssh_key_path@ + " -r "@ + c.user_name@ + "@"@ + c.public_ip@
        + ":"@ + remote + " "@ + local
}

/// The recursive scp command that uploads the directory `local` to `remote`.
pub open spec fn send_directory_command_view(
    c: Command,
    local: Seq<char>,
    remote: Seq<char>,
) -> Seq<char> {
    chmod_prefix(c) + "scp -i "@ + c.ssh_key_path@ + " -r "@ + local + " "@ + c.user_name@ + "@"@
        + c.public_ip@ + ":"@ + remote
}

/// The heading of the instance's help text: key permission fix and a line
/// naming the instance, its state, zone and ip mode.
pub open spec fn display_header(c: Command) -> Seq<char> {
    "# change SSH key permission\nchmod 400 "@ + c.ssh_key_path@ + "\n\n# instance '"@
        + c.instance_id@ + "' ("@ + c.instance_state@ + ", "@ + c.availability_zone@
        + ") -- ip mode '"@ + c.ip_mode@ + "'\n"@
}

/// The three ssh invocations of the help text: a login shell and two reads of
/// the cloud-init log.
pub open spec fn display_ssh(c: Command) -> Seq<char> {
    ssh_base(c) + "\n"@ + ssh_base(c) + " 'tail -10 /var/log/cloud-init-output.log'\n"@ + ssh_base(
        c,
    ) + " 'tail -f /var/log/cloud-init-output.log'\n\n"@
}

/// The four scp templates of the help text: file and directory transfer in
/// both directions.
pub open spec fn display_scp(c: Command) -> Seq<char> {
    "# download a remote file to local machine\nscp -i "@ + c.ssh_key_path@ + " "@ + c.user_name@
        + "@"@ + c.public_ip@ + ":REMOTE_FILE_PATH LOCAL_FILE_PATH\nscp -i "@ + c.ssh_key_path@
        + " -r "@ + c.user_name@ + "@"@ + c.public_ip@
        + ":REMOTE_DIRECTORY_PATH LOCAL_DIRECTORY_PATH\n\n# upload a local file to remote machine\nscp -i "@
        + c.ssh_key_path@ + " LOCAL_FILE_PATH "@ + c.user_name@ + "@"@ + c.public_ip@
        + ":REMOTE_FILE_PATH\nscp -i "@ + c.ssh_key_path@ + " -r LOCAL_DIRECTORY_PATH "@
        + c.user_name@ + "@"@ + c.public_ip@ + ":REMOTE_DIRECTORY_PATH\n\n"@
}

/// The three SSM session invocations of the help text.
pub open spec fn display_ssm(c: Command) -> Seq<char> {
    "# AWS SSM session (requires a running SSM agent)\n# https://github.com/aws/amazon-ssm-agent/issues/131\naws ssm start-session "@
        + profile_flag(c) + "--region "@ + c.region@ + " --target "@ + c.instance_id@
        + "\naws ssm start-session "@ + profile_flag(c) + "--region "@ + c.region@ + " --target "@
        + c.instance_id@
        + " --document-name 'AWS-StartNonInteractiveCommand' --parameters command=\"sudo tail -10 /var/log/cloud-init-output.log\"\naws ssm start-session "@
        + profile_flag(c) + "--region "@ + c.region@ + " --target "@ + c.instance_id@
        + " --document-name 'AWS-StartInteractiveCommand' --parameters command=\"bash -l\"\n"@
}

/// The whole help text that describes how to reach the instance.
pub open spec fn command_display(c: Command) -> Seq<char> {
    display_header(c) + display_ssh(c) + display_scp(c) + display_ssm(c)
}

impl Command {
    fn profile_flag_text(&self) -> (r: String)
        ensures
            r@ == profile_flag(*self),
    {
        match &self.profile {
            Some(v) => {
                let mut s = "--profile ".to_owned();
                s.append(v.as_str());
                s.append(" ");
                s
            },
            None => String::new(),
        }
    }

    fn ssh_base_text(&self) -> (r: String)
        ensures
            r@ == ssh_base(*self),
    {
        let mut s = "ssh -o \"StrictHostKeyChecking no\" -i ".to_owned();
        s.append(self.ssh_key_path.as_str());
        s.append(" ");
        s.append(self.user_name.as_str());
        s.append("@");
        s.append(self.public_ip.as_str());
        s
    }

    fn chmod_prefix_text(&self) -> (r: String)
        ensures
            r@ == chmod_prefix(*self),
    {
        let mut s = "chmod 400 ".to_owned();
        s.append(self.ssh_key_path.as_str());
        s.append(" && ");
        s
    }

    /// The full shell command that runs `cmd` on the instance over ssh.
    pub fn run_command(&self, cmd: &str) -> (r: String)
        ensures
            r@ == run_command_view(*self, cmd@),
    {
        let mut s = self.chmod_prefix_text();
        s.append(self.ssh_base_text().as_str());
        s.append(" '");
        s.append(cmd);
        s.append("'");
        s
    }

    /// The command that opens an SSM session to the instance.
    pub fn ssm_start_session_command(&self) -> (r: String)
        ensures
            r@ == ssm_start_session_view(*self),
    {
        let mut s = "aws ssm start-session --region ".to_owned();
        s.append(self.region.as_str());
        s.append(" --target ");
        s.append(self.instance_id.as_str());
        s
    }

    /// The scp command that downloads `remote_file_path` to `local_file_path`.
    pub fn download_file_command(&self, remote_file_path: &str, local_file_path: &str) -> (r:
        String)
        ensures
            r@ == download_file_command_view(*self, remote_file_path@, local_file_path@),
    {
        let mut s = self.chmod_prefix_text();
        s.append("scp -i ");
        s.append(self.ssh_key_path.as_str());
        s.append(" ");
        s.append(self.user_name.as_str());
        s.append("@");
        s.append(self.public_ip.as_str());
        s.append(":");
        s.append(remote_file_path);
        s.append(" ");
        s.append(local_file_path);
        s
    }

    /// The scp command that uploads `local_file_path` to `remote_file_path`.
    pub fn send_file_command(&self, local_file_path: &str, remote_file_path: &str) -> (r: String)
        ensures
            r@ == send_file_command_view(*self, local_file_path@, remote_file_path@),
    {
        let mut s = self.chmod_prefix_text();
        s.append("scp -i ");
        s.append(self.ssh_key_path.as_str());
        s.append(" ");
        s.append(local_file_path);
        s.append(" ");
        s.append(self.user_name.as_str());
        s.append("@");
        s.append(self.public_ip.as_str());
        s.append(":");
        s.append(remote_file_path);
        s
    }

    /// The recursive scp command that downloads the directory
    /// `remote_directory_path` to `local_directory_path`.
    pub fn download_directory_command(
        &self,
        remote_directory_path: &str,
        local_directory_path: &str,
    ) -> (r: String)
        ensures
            r@ == download_directory_command_view(
                *self,
                remote_directory_path@,
                local_directory_path@,
            ),
    {
        let mut s = self.chmod_prefix_text();
        s.append("scp -i ");
        s.append(self.ssh_key_path.as_str());
        s.append(" -r ");
        s.append(self.user_name.as_str());
        s.append("@");
        s.append(self.public_ip.as_str());
        s.append(":");
        s.append(remote_directory_path);
        s.append(" ");
        s.append(local_directory_path);
        s
    }

    /// The recursive scp command that uploads the directory
    /// `local_directory_path` to `remote_directory_path`.
    pub fn send_directory_command(
        &self,
        local_directory_path: &str,
        remote_directory_path: &str,
    ) -> (r: String)
        ensures
            r@ == send_directory_command_view(
                *self,
                local_directory_path@,
                remote_directory_path@,
            ),
    {
        let mut s = self.chmod_prefix_text();
        s.append("scp -i ");
        s.append(self.ssh_key_path.as_str());
        s.append(" -r ");
        s.append(local_directory_path);
        s.append(" ");
        s.append(self.user_name.as_str());
        s.append("@");
        s.append(self.public_ip.as_str());
        s.append(":");
        s.append(remote_directory_path);
        s
    }

    fn display_header_text(&self) -> (r: String)
        ensures
            r@ == display_header(*self),
    {
        let mut s = "# change SSH key permission\nchmod 400 ".to_owned();
        s.append(self.ssh_key_path.as_str());
        s.append("\n\n# instance '");
        s.append(self.instance_id.as_str());
        s.append("' (");
        s.append(self.instance_state.as_str());
        s.append(", ");
        s.append(self.availability_zone.as_str());
        s.append(") -- ip mode '");
        s.append(self.ip_mode.as_str());
        s.append("'\n");
        s
    }

    fn display_ssh_text(&self) -> (r: String)
        ensures
            r@ == display_ssh(*self),
    {
        let mut s = self.ssh_base_text();
        s.append("\n");
        s.append(self.ssh_base_text().as_str());
        s.append(" 'tail -10 /var/log/cloud-init-output.log'\n");
        s.append(self.ssh_base_text().as_str());
        s.append(" 'tail -f /var/log/cloud-init-output.log'\n\n");
        s
    }

    fn display_scp_text(&self) -> (r: String)
        ensures
            r@ == display_scp(*self),
    {
        let mut s = "# download a remote file to local machine\nscp -i ".to_owned();
        s.append(self.ssh_key_path.as_str());
        s.append(" ");
        s.append(self.user_name.as_str());
        s.append("@");
        s.append(self.public_ip.as_str());
        s.append(":REMOTE_FILE_PATH LOCAL_FILE_PATH\nscp -i ");
        s.append(self.ssh_key_path.as_str());
        s.append(" -r ");
        s.append(self.user_name.as_str());
        s.append("@");
        s.append(self.public_ip.as_str());
        s.append(":REMOTE_DIRECTORY_PATH LOCAL_DIRECTORY_PATH\n\n# upload a local file to remote machine\nscp -i ");
        s.append(self.ssh_key_path.as_str());
        s.append(" LOCAL_FILE_PATH ");
        s.append(self.user_name.as_str());
        s.append("@");
        s.append(self.public_ip.as_str());
        s.append(":REMOTE_FILE_PATH\nscp -i ");
        s.append(self.ssh_key_path.as_str());
        s.append(" -r LOCAL_DIRECTORY_PATH ");
        s.append(self.user_name.as_str());
        s.append("@");
        s.append(self.public_ip.as_str());
        s.append(":REMOTE_DIRECTORY_PATH\n\n");
        s
    }

    fn display_ssm_text(&self) -> (r: String)
        ensures
            r@ == display_ssm(*self),
    {
        let mut s =
            "# AWS SSM session (requires a running SSM agent)\n# https://github.com/aws/amazon-ssm-agent/issues/131\naws ssm start-session ".to_owned();
        s.append(self.profile_flag_text().as_str());
        s.append("--region ");
        s.append(self.region.as_str());
        s.append(" --target ");
        s.append(self.instance_id.as_str());
        s.append("\naws ssm start-session ");
        s.append(self.profile_flag_text().as_str());
        s.append("--region ");
        s.append(self.region.as_str());
        s.append(" --target ");
        s.append(self.instance_id.as_str());
        s.append(" --document-name 'AWS-StartNonInteractiveCommand' --parameters command=\"sudo tail -10 /var/log/cloud-init-output.log\"\naws ssm start-session ");
        s.append(self.profile_flag_text().as_str());
        s.append("--region ");
        s.append(self.region.as_str());
        s.append(" --target ");
        s.append(self.instance_id.as_str());
        s.append(" --document-name 'AWS-StartInteractiveCommand' --parameters command=\"bash -l\"\n");
        s
    }

    /// The whole help text shown for a `Command`: how to reach the instance
    /// over ssh, scp and SSM.
    pub fn to_text(&self) -> (r: String)
        ensures
            r@ == command_display(*self),
    {
        let mut s = self.display_header_text();
        s.append(self.display_ssh_text().as_str());
        s.append(self.display_scp_text().as_str());
        s.append(self.display_ssm_text().as_str());
        s
    }

    /// The ssh command that removes `path` on the instance.
    pub fn remote_remove_command(&self, path: &str) -> (r: String)
        ensures
            r@ == run_command_view(*self, "sudo rm -f "@ + path@ + " || true"@),
    {
        let mut cmd = "sudo rm -f ".to_owned();
        cmd.append(path);
        cmd.append(" || true");
        self.run_command(cmd.as_str())
    }

    /// The ssh command that lists `path` on the instance.
    pub fn remote_list_command(&self, path: &str) -> (r: String)
        ensures
            r@ == run_command_view(*self, "ls "@ + path@),
    {
        let mut cmd = "ls ".to_owned();
        cmd.append(path);
        self.run_command(cmd.as_str())
    }
}

/// A list of ssh commands.
pub struct Commands(pub Vec<Command>);

/// The help texts of all the commands, each followed by a blank line.
pub open spec fn scripts_concat(cs: Seq<Command>) -> Seq<char>
    decreases cs.len(),
{
    if cs.len() == 0 {
        Seq::<char>::empty()
    } else {
        scripts_concat(cs.drop_last()) + command_display(cs.last()) + "\n\n"@
    }
}

/// The shell script that gathers the help texts of all the commands.
pub open spec fn sync_script(cs: Seq<Command>) -> Seq<char> {
    "#!/bin/bash\n\n"@ + scripts_concat(cs)
}

impl Commands {
    /// The shell script that gathers the help texts of all the commands: a
    /// bash header, then each command's text followed by a blank line.
    pub fn script_text(&self) -> (r: String)
        ensures
            r@ == sync_script(self.0@),
    {
        let mut contents = "#!/bin/bash\n\n".to_owned();
        proof {
            assert(contents@ =~= "#!/bin/bash\n\n"@ + scripts_concat(self.0@.take(0)));
        }
        let mut i: usize = 0;
        while i < self.0.len()
            invariant
                i <= self.0@.len(),
                contents@ == "#!/bin/bash\n\n"@ + scripts_concat(self.0@.take(i as int)),
            decreases self.0@.len() - i,
        {
            let d = self.0[i].to_text();
            contents.append(d.as_str());
            contents.append("\n\n");
            proof {
                assert(self.0@.take(i + 1).drop_last() =~= self.0@.take(i as int));
                assert(self.0@.take(i + 1).last() == self.0@[i as int]);
                assert(contents@ =~= "#!/bin/bash\n\n"@ + scripts_concat(self.0@.take(i + 1)));
            }
            i = i + 1;
        }
        proof {
            assert(self.0@.take(i as int) =~= self.0@);
        }
        contents
    }
}

/// The local shell command that removes the file `path`, succeeding even when
/// it is absent.
pub fn local_remove_file_command(path: &str) -> (r: String)
    ensures
        r@ == "rm -f "@ + path@ + " || true"@,
{
    let mut s = "rm -f ".to_owned();
    s.append(path);
    s.append(" || true");
    s
}

/// The local shell command that removes the directory `path`, succeeding even
/// when it is absent.
pub fn local_remove_directory_command(path: &str) -> (r: String)
    ensures
        r@ == "rm -rf "@ + path@ + " || true"@,
{
    let mut s = "rm -rf ".to_owned();
    s.append(path);
    s.append(" || true");
    s
}

} // verus!
