//! The list of devices.
use vstd::pervasive::unreached;
use vstd::prelude::*;

use crate::conversation::Progress;
use crate::device::{AudioInfo, Device};
use crate::error::{BackendSpecificError, DevicesError};
use crate::text::{decimal_text, failure_text, node_failure_text};

verus! {

/// Something to ask of the mixer.
#[derive(Clone, Copy, Debug, PartialEq, Eq, Structural)]
pub enum MixerRequest {
    /// Open the mixer.
    Open,
    /// How many audio devices are there?
    Sysinfo,
    /// What is known of an audio device, by its index?
    Audioinfo(u32),
}

/// What the mixer answers. A failure comes with the text of its error.
#[derive(Debug, PartialEq, Eq)]
pub enum MixerReply {
    /// To [`MixerRequest::Open`].
    Opened(Result<(), String>),
    /// To [`MixerRequest::Sysinfo`].
    Sysinfo(Result<u32, String>),
    /// To [`MixerRequest::Audioinfo`].
    Audioinfo(Result<AudioInfo, String>),
}

/// The devices that were found.
#[derive(Debug)]
pub struct Devices {
    pub info: Vec<AudioInfo>,
}

impl Default for Devices {
    /// No devices.
    fn default() -> (devices: Devices)
        ensures
            devices.info@ == Seq::<AudioInfo>::empty(),
    {
        Devices { info: Vec::new() }
    }
}

impl Devices {
    /// What is known of the devices that are still to come, in the order in which
    /// they come: the device that was listed last comes first.
    pub open spec fn upcoming(self) -> Seq<AudioInfo> {
        self.info@.reverse()
    }

    /// Each device of the list comes once, and the order is that of the list from its
    /// end to its beginning: as many devices come as the list has, and device `i`
    /// comes after those that stand behind it in the list.
    pub proof fn law_each_device_comes_once(self, i: int)
        ensures
            self.upcoming().len() == self.info@.len(),
            0 <= i < self.info@.len() ==> self.upcoming()[self.info@.len() - 1 - i]
                == self.info@[i],
    {
    }

    /// Starts to list the devices.
    pub fn new() -> (scan: DeviceScan)
        ensures
            scan.valid(),
            scan@ == Scan::start(),
    {
        DeviceScan { stage: ScanStage::Opening, info: Vec::new() }
    }

    /// Takes the next device.
    pub fn next(&mut self) -> (device: Option<Device>)
        ensures
            old(self).upcoming().len() == 0 ==> device is None && final(self).upcoming().len() == 0,
            old(self).upcoming().len() > 0 ==> {
                let info = old(self).upcoming().first();
                &&& device == Some(Device { devnode: info.devnode, info: Some(info) })
                &&& final(self).upcoming() == old(self).upcoming().drop_first()
            },
            device is None <==> old(self).info@.len() == 0,
            match device {
                Some(Device { devnode, info }) => {
                    &&& info matches Some(last)
                    &&& devnode == last.devnode
                    &&& old(self).info@ == final(self).info@.push(last)
                },
                None => final(self).info@ == old(self).info@,
            },
    {
        match self.info.pop() {
            Some(info) => {
                assert(self.upcoming() =~= old(self).upcoming().drop_first());
                assert(old(self).info@ =~= self.info@.push(info));
                Some(Device { devnode: info.devnode.clone(), info: Some(info) })
            },
            None => None,
        }
    }
}

/// How far the listing of the devices has come.
#[derive(Clone, Copy, Debug, PartialEq, Eq, Structural)]
pub enum ScanStage {
    /// The mixer is being opened.
    Opening,
    /// The number of devices has been asked for.
    Counting,
    /// There are `count` devices, and what is known of the next one has been asked
    /// for.
    Listing { count: u32 },
}

/// The listing of the devices.
#[derive(Debug, PartialEq, Eq)]
pub struct DeviceScan {
    stage: ScanStage,
    info: Vec<AudioInfo>,
}

/// How the listing of the devices stands.
pub enum Scan {
    /// There is something to ask; `info` has been listed.
    Asking { stage: ScanStage, info: Seq<AudioInfo> },
    /// These are the devices.
    Found(Seq<AudioInfo>),
    /// A call failed, with this description.
    Failed(Seq<char>),
}

impl Scan {
    /// Before anything is known.
    pub open spec fn start() -> Scan {
        Scan::Asking { stage: ScanStage::Opening, info: Seq::empty() }
    }

    /// What is asked of the mixer: the devices are listed by their index.
    pub open spec fn asks(self) -> Option<MixerRequest> {
        match self {
            Scan::Asking { stage: ScanStage::Opening, .. } => Some(MixerRequest::Open),
            Scan::Asking { stage: ScanStage::Counting, .. } => Some(MixerRequest::Sysinfo),
            Scan::Asking { stage: ScanStage::Listing { .. }, info } => Some(
                MixerRequest::Audioinfo(info.len() as u32),
            ),
            _ => None,
        }
    }

    /// Whether `reply` answers what is asked.
    pub open spec fn awaits(self, reply: MixerReply) -> bool {
        match self {
            Scan::Asking { stage: ScanStage::Opening, .. } => reply is Opened,
            Scan::Asking { stage: ScanStage::Counting, .. } => reply is Sysinfo,
            Scan::Asking { stage: ScanStage::Listing { .. }, .. } => reply is Audioinfo,
            _ => false,
        }
    }

    /// With `count` devices in all and `info` known: asks for the next, or is over.
    pub open spec fn listed(count: u32, info: Seq<AudioInfo>) -> Scan {
        if info.len() < count {
            Scan::Asking { stage: ScanStage::Listing { count }, info }
        } else {
            Scan::Found(info)
        }
    }

    /// How the listing stands after `reply`.
    pub open spec fn next(self, reply: MixerReply) -> Scan {
        match (self, reply) {
            (Scan::Asking { stage: ScanStage::Opening, info }, MixerReply::Opened(Ok(()))) => {
                Scan::Asking { stage: ScanStage::Counting, info }
            },
            (Scan::Asking { stage: ScanStage::Counting, info }, MixerReply::Sysinfo(Ok(count))) => {
                Scan::listed(count, info)
            },
            (
                Scan::Asking { stage: ScanStage::Listing { count }, info },
                MixerReply::Audioinfo(Ok(found)),
            ) => Scan::listed(count, info.push(found)),
            (_, MixerReply::Opened(Err(e))) => Scan::Failed(
                crate::text::failure(crate::text::node_call("open"@, "/dev/mixer"@), e@),
            ),
            (_, MixerReply::Sysinfo(Err(e))) => Scan::Failed(
                crate::text::failure("SNDCTL_SYSINFO"@, e@),
            ),
            (Scan::Asking { info, .. }, MixerReply::Audioinfo(Err(e))) => Scan::Failed(
                crate::text::failure(
                    "SNDCTL_AUDIOINFO "@ + crate::text::decimal(info.len()),
                    e@,
                ),
            ),
            _ => self,
        }
    }

    /// How the listing stands after `replies`, in turn.
    pub open spec fn after(replies: Seq<MixerReply>) -> Scan
        decreases replies.len(),
    {
        if replies.len() == 0 {
            Scan::start()
        } else {
            Scan::after(replies.drop_last()).next(replies.last())
        }
    }

    /// Whether each of `replies` answers what is asked when it comes.
    pub open spec fn follows(replies: Seq<MixerReply>) -> bool
        decreases replies.len(),
    {
        replies.len() == 0 || {
            &&& Scan::follows(replies.drop_last())
            &&& Scan::after(replies.drop_last()).awaits(replies.last())
        }
    }
}

/// How the listing of the devices stands after a step.
pub open spec fn scan_view(progress: Progress<DeviceScan, Result<Devices, DevicesError>>) -> Scan {
    match progress {
        Progress::Ask(scan) => scan@,
        Progress::Done(Ok(devices)) => Scan::Found(devices.info@),
        Progress::Done(Err(e)) => Scan::Failed(e.description()),
    }
}

impl View for DeviceScan {
    type V = Scan;

    closed spec fn view(&self) -> Scan {
        Scan::Asking { stage: self.stage, info: self.info@ }
    }
}

/// The error for a failed call on the mixer.
fn devices_error(description: String) -> (e: DevicesError)
    ensures
        e.description() == description@,
{
    DevicesError::BackendSpecific { err: BackendSpecificError { description } }
}

impl DeviceScan {
    /// While devices are being listed, some are missing; before that, none is known.
    pub closed spec fn valid(self) -> bool {
        match self.stage {
            ScanStage::Listing { count } => self.info@.len() < count,
            _ => self.info@.len() == 0,
        }
    }

    /// What is to be asked of the mixer.
    pub fn request(&self) -> (request: MixerRequest)
        requires
            self.valid(),
        ensures
            Some(request) == self@.asks(),
    {
        match self.stage {
            ScanStage::Opening => MixerRequest::Open,
            ScanStage::Counting => MixerRequest::Sysinfo,
            ScanStage::Listing { .. } => MixerRequest::Audioinfo(self.info.len() as u32),
        }
    }

    /// Takes the answer of the mixer. When the mixer is open, the devices are
    /// counted and then listed in turn; the first failure ends it.
    pub fn step(self, reply: MixerReply) -> (progress: Progress<
        DeviceScan,
        Result<Devices, DevicesError>,
    >)
        requires
            self.valid(),
            self@.awaits(reply),
        ensures
            scan_view(progress) == self@.next(reply),
            progress matches Progress::Ask(scan) ==> scan.valid() && scan@ is Asking,
            match progress {
                Progress::Ask(scan) => self@.next(reply) == scan@,
                Progress::Done(Ok(devices)) => self@.next(reply) == Scan::Found(devices.info@),
                Progress::Done(Err(DevicesError::BackendSpecific { err })) => self@.next(reply)
                    == Scan::Failed(err.description@),
            },
    {
        match reply {
            MixerReply::Opened(Ok(())) => {
                Progress::Ask(DeviceScan { stage: ScanStage::Counting, info: self.info })
            },
            MixerReply::Opened(Err(e)) => {
                Progress::Done(
                    Err(devices_error(node_failure_text("open", "/dev/mixer", e.as_str()))),
                )
            },
            MixerReply::Sysinfo(Ok(count)) => listed(count, self.info),
            MixerReply::Sysinfo(Err(e)) => {
                Progress::Done(Err(devices_error(failure_text("SNDCTL_SYSINFO", e.as_str()))))
            },
            MixerReply::Audioinfo(Ok(found)) => match self.stage {
                ScanStage::Listing { count } => {
                    let mut info = self.info;
                    info.push(found);
                    listed(count, info)
                },
                _ => unreached(),
            },
            MixerReply::Audioinfo(Err(e)) => {
                let index = decimal_text(self.info.len() as u32);
                let what = "SNDCTL_AUDIOINFO ".to_owned().concat(index.as_str());
                Progress::Done(Err(devices_error(failure_text(what.as_str(), e.as_str()))))
            },
        }
    }
}

/// With `count` devices in all and `info` known: asks for the next, or is over.
fn listed(count: u32, info: Vec<AudioInfo>) -> (progress: Progress<
    DeviceScan,
    Result<Devices, DevicesError>,
>)
    ensures
        scan_view(progress) == Scan::listed(count, info@),
        progress matches Progress::Ask(scan) ==> scan.valid() && scan@ is Asking,
{
    if info.len() < count as usize {
        Progress::Ask(DeviceScan { stage: ScanStage::Listing { count }, info })
    } else {
        Progress::Done(Ok(Devices { info }))
    }
}

/// The answers of a mixer that says that there are `count` devices, and then lists
/// `info`.
pub open spec fn listing(count: u32, info: Seq<AudioInfo>) -> Seq<MixerReply> {
    seq![MixerReply::Opened(Ok(())), MixerReply::Sysinfo(Ok(count))] + info.map_values(
        |found: AudioInfo| MixerReply::Audioinfo(Ok(found)),
    )
}

/// Whether `reply` tells of a failed call.
pub open spec fn is_failure(reply: MixerReply) -> bool {
    match reply {
        MixerReply::Opened(r) => r is Err,
        MixerReply::Sysinfo(r) => r is Err,
        MixerReply::Audioinfo(r) => r is Err,
    }
}

/// Where the listing of the devices stands while the mixer lists `info`: it asks
/// for the devices by their index until it has as many as there are.
proof fn lemma_listing(count: u32, info: Seq<AudioInfo>)
    requires
        info.len() <= count,
    ensures
        Scan::follows(listing(count, info)),
        Scan::after(listing(count, info)) == Scan::listed(count, info),
    decreases info.len(),
{
    let replies = listing(count, info);
    if info.len() == 0 {
        reveal_with_fuel(Scan::after, 3);
        reveal_with_fuel(Scan::follows, 3);
        assert(replies.drop_last() =~= seq![MixerReply::Opened(Ok(()))]);
        assert(replies.drop_last().drop_last() =~= Seq::<MixerReply>::empty());
        assert(info =~= Seq::<AudioInfo>::empty());
    } else {
        lemma_listing(count, info.drop_last());
        assert(replies.drop_last() =~= listing(count, info.drop_last()));
        assert(info.drop_last().push(info.last()) =~= info);
    }
}

/// If no call fails, the devices are asked for by their index, from the first to
/// the last, and what is found is what the mixer lists.
pub proof fn law_every_device_is_found(info: Seq<AudioInfo>, known: nat)
    requires
        info.len() <= u32::MAX,
    ensures
        ({
            let count = info.len() as u32;
            &&& Scan::follows(listing(count, info))
            &&& Scan::after(listing(count, info)) == Scan::Found(info)
            &&& known < info.len() ==> Scan::after(
                listing(count, info.take(known as int)),
            ).asks() == Some(MixerRequest::Audioinfo(known as u32))
        }),
{
    lemma_listing(info.len() as u32, info);
    if known < info.len() {
        lemma_listing(info.len() as u32, info.take(known as int));
    }
}

/// Devices are found only where the mixer was opened, gave their number, and
/// listed each of them.
pub proof fn law_found_is_what_the_mixer_listed(replies: Seq<MixerReply>, info: Seq<AudioInfo>)
    requires
        Scan::follows(replies),
        Scan::after(replies) == Scan::Found(info),
    ensures
        info.len() <= u32::MAX,
        replies == listing(info.len() as u32, info),
{
    lemma_replies_so_far(replies);
}

/// The first failed call ends the listing, and nothing else does but the last
/// device.
pub proof fn law_first_failure_ends_the_listing(replies: Seq<MixerReply>)
    requires
        Scan::follows(replies),
        replies.len() > 0,
    ensures
        Scan::after(replies) is Failed <==> is_failure(replies.last()),
        forall|i: int| 0 <= i < replies.len() - 1 ==> !is_failure(#[trigger] replies[i]),
    decreases replies.len(),
{
    let front = replies.drop_last();
    lemma_replies_so_far(front);
    lemma_replies_so_far(replies);
    if front.len() > 0 {
        law_first_failure_ends_the_listing(front);
        assert forall|i: int| 0 <= i < front.len() implies !is_failure(#[trigger] replies[i]) by {
            assert(front[i] == replies[i]);
            assert(front.last() == front[front.len() - 1]);
        }
    }
}

/// The listing takes the answer to what it asks for, whatever the answer is, and
/// nothing else.
pub proof fn law_takes_every_answer(scan: Scan, reply: MixerReply)
    ensures
        scan.awaits(reply) <==> match scan.asks() {
            Some(MixerRequest::Open) => reply is Opened,
            Some(MixerRequest::Sysinfo) => reply is Sysinfo,
            Some(MixerRequest::Audioinfo(_)) => reply is Audioinfo,
            None => false,
        },
{
}

/// The mixer is opened first, and is then asked for the number of its devices. A
/// failure of either call ends the listing, and its description names the call and
/// the cause.
pub proof fn law_mixer_is_opened_and_asked(cause: String)
    ensures
        Scan::start().asks() == Some(MixerRequest::Open),
        Scan::start().next(MixerReply::Opened(Err(cause))) == Scan::Failed(
            "open(\"/dev/mixer\"): "@ + cause@,
        ),
        ({
            let opened = Scan::start().next(MixerReply::Opened(Ok(())));
            &&& opened.asks() == Some(MixerRequest::Sysinfo)
            &&& opened.next(MixerReply::Sysinfo(Err(cause))) == Scan::Failed(
                "SNDCTL_SYSINFO: "@ + cause@,
            )
        }),
{
    reveal_strlit("open");
    reveal_strlit("/dev/mixer");
    reveal_strlit("(\"");
    reveal_strlit("\")");
    reveal_strlit(": ");
    reveal_strlit("open(\"/dev/mixer\"): ");
    reveal_strlit("SNDCTL_SYSINFO");
    reveal_strlit("SNDCTL_SYSINFO: ");
    assert(crate::text::failure(crate::text::node_call("open"@, "/dev/mixer"@), cause@)
        =~= "open(\"/dev/mixer\"): "@ + cause@);
    assert(crate::text::failure("SNDCTL_SYSINFO"@, cause@) =~= "SNDCTL_SYSINFO: "@ + cause@);
}

/// Where the mixer has listed `info` of its `count` devices and then fails, the
/// description names the call, the index of the next device in decimal, and the
/// cause.
pub proof fn law_failed_audioinfo_is_described(count: u32, info: Seq<AudioInfo>, cause: String)
    requires
        info.len() < count,
    ensures
        Scan::follows(listing(count, info).push(MixerReply::Audioinfo(Err(cause)))),
        Scan::after(listing(count, info).push(MixerReply::Audioinfo(Err(cause)))) == Scan::Failed(
            "SNDCTL_AUDIOINFO "@ + crate::text::decimal(info.len()) + seq![':', ' '] + cause@,
        ),
{
    lemma_listing(count, info);
    let reply = MixerReply::Audioinfo(Err(cause));
    assert(listing(count, info).push(reply).drop_last() =~= listing(count, info));
    crate::text::law_failure("SNDCTL_AUDIOINFO "@ + crate::text::decimal(info.len()), cause@);
}

/// What the state of the listing says of the answers so far.
proof fn lemma_replies_so_far(replies: Seq<MixerReply>)
    requires
        Scan::follows(replies),
    ensures
        match Scan::after(replies) {
            Scan::Asking { stage: ScanStage::Opening, info } => replies.len() == 0 && info.len()
                == 0,
            Scan::Asking { stage: ScanStage::Counting, info } => replies == seq![
                MixerReply::Opened(Ok(())),
            ] && info.len() == 0,
            Scan::Asking { stage: ScanStage::Listing { count }, info } => info.len() < count
                && replies == listing(count, info),
            Scan::Found(info) => info.len() <= u32::MAX && replies == listing(
                info.len() as u32,
                info,
            ),
            Scan::Failed(_) => replies.len() > 0 && is_failure(replies.last()),
        },
    decreases replies.len(),
{
    if replies.len() > 0 {
        let front = replies.drop_last();
        lemma_replies_so_far(front);
        assert(replies =~= front.push(replies.last()));
        match (Scan::after(front), replies.last()) {
            (Scan::Asking { stage: ScanStage::Opening, .. }, MixerReply::Opened(Ok(u))) => {
                assert(u == ());
                assert(replies =~= seq![MixerReply::Opened(Ok(()))]);
            },
            (Scan::Asking { stage: ScanStage::Counting, info }, MixerReply::Sysinfo(Ok(count))) => {
                assert(replies =~= listing(count, info));
            },
            (
                Scan::Asking { stage: ScanStage::Listing { count }, info },
                MixerReply::Audioinfo(Ok(found)),
            ) => {
                assert(replies =~= listing(count, info.push(found)));
            },
            _ => {},
        }
    }
}

} // verus!
