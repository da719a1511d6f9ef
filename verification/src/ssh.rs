//! Shell command construction for SSH/SCP/AWS-SSM remote-access workflows.

pub mod aws;
