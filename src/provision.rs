//! What provisioning asks of the compute provider: the image, the instance
//! type, the ownership tags, the bootstrap payload; the filters that find
//! those instances again; and the bounded waits for a new instance.
use vstd::prelude::*;
use base64::Engine;
use base64::engine::general_purpose;
use crate::machine::{InstanceState, MachineError, reached_running};

verus! {

/// The Amazon Linux 2 image for 64-bit ARM (as of 2025-05-04).
pub const AMAZON_LINUX_ARM_AMI: &'static str = "ami-0400ee32fb141782f";

/// The instance type of every provisioned machine.
pub const INSTANCE_TYPE: &'static str = "t4g.micro";

/// The key of the ownership tag; discovery filters on it.
pub const SERVICE_TAG_KEY: &'static str = "Service";

/// The value of the ownership tag.
pub const SERVICE_TAG_VALUE: &'static str = "load_balancer";

/// The key and value of the name tag.
pub const NAME_TAG_KEY: &'static str = "Name";

pub const NAME_TAG_VALUE: &'static str = "Something";

/// The prefix of a tag filter's name.
pub const TAG_FILTER_PREFIX: &'static str = "tag:";

/// The filter on the provider-reported state, and the state it asks for.
pub const STATE_FILTER_NAME: &'static str = "instance-state-name";

pub const STATE_FILTER_RUNNING: &'static str = "running";

/// The bootstrap script up to the container image, and after it.
pub const USER_DATA_HEAD: &'static str = "
        #!/bin/bash
        yum update -y

        sudo amazon-linux-extras enable docker
        sudo yum install -y docker

        sudo systemctl start docker
        sudo systemctl enable docker

        sudo usermod -a -G docker ec2-user

        sudo docker run -d --restart=always -p 80:80 ";

pub const USER_DATA_TAIL: &'static str = "

        ";

/// Milliseconds between two polls for `Running`, and for health.
pub const RUNNING_POLL_INTERVAL_MS: u64 = 500;

pub const HEALTH_POLL_INTERVAL_MS: u64 = 1000;

/// How many polls a new instance gets to reach `Running`, and to answer its
/// health probe.
pub const MAX_RUNNING_POLLS: u32 = 240;

pub const MAX_HEALTH_POLLS: u32 = 300;

/// The images that machines boot from.
#[derive(Clone, Copy, Debug, PartialEq, Eq, Structural)]
pub enum Ami {
    /// Amazon Linux 2, 64 bit, ARM.
    AmazonLinux64BitArm,
}

impl Ami {
    /// The provider's id of the image.
    pub fn to_string(&self) -> (r: String)
        ensures
            r@ == AMAZON_LINUX_ARM_AMI@,
    {
        match self {
            Ami::AmazonLinux64BitArm => String::from_str(AMAZON_LINUX_ARM_AMI),
        }
    }
}

/// The one parameter of the bootstrap script: the container image to run.
#[derive(Clone, Debug, PartialEq, Eq)]
pub struct MachineUserData {
    pub docker_image: String,
}

/// The bootstrap payload in the provider's encoding (base64).
#[derive(Clone, Debug, PartialEq, Eq)]
pub struct AWSMachineUserData(pub MachineUserData);

/// The bootstrap script that installs docker and runs `image` on port 80.
pub open spec fn user_data_script(image: Seq<char>) -> Seq<char> {
    USER_DATA_HEAD@ + image + USER_DATA_TAIL@
}

/// The standard, padded base64 encoding of the UTF-8 bytes of `s`.
pub uninterp spec fn base64_of(s: Seq<char>) -> Seq<char>;

/// Relies on base64's `Engine::encode` with the `general_purpose::STANDARD`
/// engine: the padded standard encoding of the text's bytes, which depends on
/// the text alone. It cannot fail for a `str`, whose length is at most
/// `isize::MAX`.
#[verifier::external_body]
fn base64_encode(s: &str) -> (r: String)
    ensures
        r@ == base64_of(s@),
{
    general_purpose::STANDARD.encode(s)
}

impl AWSMachineUserData {
    /// The bootstrap script for the container image, base64-encoded.
    pub fn to_string(&self) -> (r: String)
        ensures
            r@ == base64_of(user_data_script(self.0.docker_image@)),
    {
        let script = String::from_str(USER_DATA_HEAD).concat(self.0.docker_image.as_str()).concat(
            USER_DATA_TAIL,
        );
        base64_encode(script.as_str())
    }
}

/// A key and value attached to an instance.
#[derive(Clone, Debug, PartialEq, Eq)]
pub struct Tag {
    pub key: String,
    pub value: String,
}

/// One request for a new instance.
#[derive(Clone, Debug, PartialEq, Eq)]
pub struct LaunchSpec {
    pub image_id: String,
    pub instance_type: String,
    /// How many instances to start: both the minimum and the maximum.
    pub count: i32,
    pub tags: Vec<Tag>,
    pub user_data: String,
}

/// Whether `t` is the tag `key = value`.
pub open spec fn is_tag(t: Tag, key: Seq<char>, value: Seq<char>) -> bool {
    t.key@ == key && t.value@ == value
}

/// The request for one machine: the fixed image and type, the name tag and
/// the ownership tag, and the encoded bootstrap payload.
pub fn launch_spec(user_data: &AWSMachineUserData) -> (r: LaunchSpec)
    ensures
        r.image_id@ == AMAZON_LINUX_ARM_AMI@,
        r.instance_type@ == INSTANCE_TYPE@,
        r.count == 1,
        r.tags@.len() == 2,
        is_tag(r.tags@[0], NAME_TAG_KEY@, NAME_TAG_VALUE@),
        is_tag(r.tags@[1], SERVICE_TAG_KEY@, SERVICE_TAG_VALUE@),
        r.user_data@ == base64_of(user_data_script(user_data.0.docker_image@)),
{
    let mut tags: Vec<Tag> = Vec::new();
    tags.push(Tag { key: String::from_str(NAME_TAG_KEY), value: String::from_str(NAME_TAG_VALUE) });
    tags.push(
        Tag { key: String::from_str(SERVICE_TAG_KEY), value: String::from_str(SERVICE_TAG_VALUE) },
    );
    LaunchSpec {
        image_id: Ami::AmazonLinux64BitArm.to_string(),
        instance_type: String::from_str(INSTANCE_TYPE),
        count: 1,
        tags,
        user_data: user_data.to_string(),
    }
}

/// A filter on instances: a name and the values it accepts.
#[derive(Clone, Debug, PartialEq, Eq)]
pub struct Filter {
    pub name: String,
    pub values: Vec<String>,
}

/// Whether `f` accepts exactly the one value `value` under `name`.
pub open spec fn is_filter(f: Filter, name: Seq<char>, value: Seq<char>) -> bool {
    f.name@ == name && f.values@.len() == 1 && f.values@[0]@ == value
}

/// The filters that find this system's instances: the ownership tag that
/// `launch_spec` attaches, and the `running` state.
pub fn discovery_filters() -> (r: Vec<Filter>)
    ensures
        r@.len() == 2,
        is_filter(r@[0], TAG_FILTER_PREFIX@ + SERVICE_TAG_KEY@, SERVICE_TAG_VALUE@),
        is_filter(r@[1], STATE_FILTER_NAME@, STATE_FILTER_RUNNING@),
{
    let mut owner_values: Vec<String> = Vec::new();
    owner_values.push(String::from_str(SERVICE_TAG_VALUE));
    let mut state_values: Vec<String> = Vec::new();
    state_values.push(String::from_str(STATE_FILTER_RUNNING));
    let mut r: Vec<Filter> = Vec::new();
    r.push(
        Filter {
            name: String::from_str(TAG_FILTER_PREFIX).concat(SERVICE_TAG_KEY),
            values: owner_values,
        },
    );
    r.push(Filter { name: String::from_str(STATE_FILTER_NAME), values: state_values });
    r
}

/// What a wait does after one poll.
#[derive(Debug, PartialEq, Eq)]
pub enum PollStep {
    /// The awaited condition holds.
    Ready,
    /// Poll again after the interval.
    Retry,
    /// The allowed polls are spent; the wait fails with this error.
    GiveUp(MachineError),
}

/// The wait for `Running`: `observed` is the state reported by the poll just
/// made, `polls_made` counts the polls so far, this one included.
pub fn running_poll_step(observed: Option<InstanceState>, polls_made: u32, max_polls: u32) -> (r:
    PollStep)
    ensures
        observed is Some && reached_running(observed->Some_0) ==> r == PollStep::Ready,
        !(observed is Some && reached_running(observed->Some_0)) && polls_made >= max_polls ==> r
            == PollStep::GiveUp(MachineError::NotRunningInTime),
        !(observed is Some && reached_running(observed->Some_0)) && polls_made < max_polls ==> r
            == PollStep::Retry,
{
    let running = match observed {
        Some(s) => s.has_reached_running(),
        None => false,
    };
    if running {
        PollStep::Ready
    } else if polls_made >= max_polls {
        PollStep::GiveUp(MachineError::NotRunningInTime)
    } else {
        PollStep::Retry
    }
}

/// Whether an HTTP status is a success (2xx).
pub open spec fn is_success(status: u16) -> bool {
    200 <= status <= 299
}

/// The wait for health: `status` is the HTTP status of the probe just made,
/// `None` where the probe got no response.
pub fn health_poll_step(status: Option<u16>, polls_made: u32, max_polls: u32) -> (r: PollStep)
    ensures
        status is Some && is_success(status->Some_0) ==> r == PollStep::Ready,
        !(status is Some && is_success(status->Some_0)) && polls_made >= max_polls ==> r
            == PollStep::GiveUp(MachineError::NotHealthyInTime),
        !(status is Some && is_success(status->Some_0)) && polls_made < max_polls ==> r
            == PollStep::Retry,
{
    let healthy = match status {
        Some(s) => 200 <= s && s <= 299,
        None => false,
    };
    if healthy {
        PollStep::Ready
    } else if polls_made >= max_polls {
        PollStep::GiveUp(MachineError::NotHealthyInTime)
    } else {
        PollStep::Retry
    }
}

/// The URL of a machine's health probe: `http://<ip>`.
pub fn health_url(ip: &String) -> (r: String)
    ensures
        r@ == "http://"@ + ip@,
{
    String::from_str("http://").concat(ip.as_str())
}

} // verus!
