//! Establishing a camera connection and identifying what's on the other end.

use vstd::prelude::*;
use vstd::string::*;

use crate::error::{error_message, Error};
use crate::text::{decimal, ends_with, hex, joined, push_decimal, push_hex, starts_with};

verus! {

/// The prefix that marks a target as VISCA over IP rather than a serial port.
pub const TCP_SCHEME: &'static str = "tcp://";

/// What to connect to, and over which transport.
#[derive(Debug, PartialEq, Eq)]
pub enum Target {
    /// A serial port name, at a baud rate still to be discovered.
    Serial(String),
    /// A `host[:port]` endpoint speaking VISCA over TCP.
    Tcp(String),
}

/// Whether `target` is what `text` names: anything that starts with the scheme
/// is a network endpoint, and everything else is a serial port name.
pub open spec fn names(text: Seq<char>, target: Target) -> bool {
    match target {
        Target::Tcp(address) => text == TCP_SCHEME@ + address@,
        Target::Serial(port) => text == port@ && !TCP_SCHEME@.is_prefix_of(text),
    }
}

/// A text names one target only.
pub proof fn a_text_names_one_target(text: Seq<char>, first: Target, second: Target)
    requires
        names(text, first),
        names(text, second),
    ensures
        match (first, second) {
            (Target::Tcp(one), Target::Tcp(other)) => one@ == other@,
            (Target::Serial(one), Target::Serial(other)) => one@ == other@,
            _ => false,
        },
{
    let scheme = TCP_SCHEME@;
    if let Target::Tcp(one) = first {
        assert((scheme + one@).skip(scheme.len() as int) =~= one@);
        assert(scheme.is_prefix_of(scheme + one@));
    }
    if let Target::Tcp(other) = second {
        assert((scheme + other@).skip(scheme.len() as int) =~= other@);
        assert(scheme.is_prefix_of(scheme + other@));
    }
}

fn same_text(first: &str, second: &str) -> (same: bool)
    ensures
        same == (first@ == second@),
{
    first.to_owned() == second.to_owned()
}

impl Target {
    /// Reads the single connection string that every front end accepts.
    ///
    /// A scheme rather than a guess at the string's shape: serial ports are
    /// `/dev/ttyUSB0` and `COM3`, and no rule separating those from hostnames
    /// stays true for long.
    pub fn named(text: &str) -> (target: Target)
        ensures
            names(text@, target),
    {
        let scheme: usize = TCP_SCHEME.unicode_len();
        let length: usize = text.unicode_len();
        if length >= scheme {
            let start = text.substring_char(0, scheme);
            if same_text(start, TCP_SCHEME) {
                let address = text.substring_char(scheme, length);
                proof {
                    assert(text@ =~= TCP_SCHEME@ + address@);
                }
                return Target::Tcp(address.to_owned());
            }
            proof {
                if TCP_SCHEME@.is_prefix_of(text@) {
                    assert(start@ =~= TCP_SCHEME@);
                }
            }
        }
        Target::Serial(text.to_owned())
    }
}

impl From<&str> for Target {
    fn from(text: &str) -> (target: Target)
        ensures
            names(text@, target),
    {
        Target::named(text)
    }
}

impl vstd::std_specs::convert::FromSpecImpl<&str> for Target {
    open spec fn obeys_from_spec() -> bool {
        false
    }

    open spec fn from_spec(text: &str) -> Target {
        choose|target: Target| names(text@, target)
    }
}

/// A camera's reply to the version inquiry.
#[derive(Debug, Clone, Copy, PartialEq, Eq, Structural)]
pub struct VersionInfo {
    /// Who made it.
    pub vendor: u16,
    /// Which model it is.
    pub model: u16,
    /// What it runs.
    pub rom_version: u32,
    /// How many commands it takes at once.
    pub max_socket: u8,
}

/// How many candidate baud rates there are.
pub const CANDIDATES: usize = 2;

/// Candidate baud rates to try when a camera's serial configuration isn't
/// known ahead of time, most likely first.
pub const DEFAULT_CAMERA_BAUD_RATES: [u32; CANDIDATES] = [9600, 38400];

/// The result of probing a camera across one or more candidate baud rates.
#[derive(Debug, Clone, Copy, PartialEq, Eq, Structural)]
pub enum ProbeOutcome {
    /// A candidate baud rate produced a valid version-inquiry reply.
    Connected {
        /// The baud rate that produced a response.
        baud_rate: u32,
        /// The camera's version-inquiry reply.
        version: VersionInfo,
    },
    /// None of the candidate baud rates produced a response.
    NoResponse,
}

/// What a probe does next.
#[derive(Debug, Clone, Copy, PartialEq, Eq, Structural)]
pub enum ProbeStep {
    /// Attempt a connection at this rate.
    Try(u32),
    /// The probe is over.
    Done(ProbeOutcome),
}

/// What a probe does once the candidates before `place` have all failed.
pub open spec fn step_at(candidates: Seq<u32>, place: int) -> ProbeStep {
    if 0 <= place < candidates.len() {
        ProbeStep::Try(candidates[place])
    } else {
        ProbeStep::Done(ProbeOutcome::NoResponse)
    }
}

/// What a probe does once the attempt at the candidate at `place` was answered:
/// an answer ends it, and any error moves on to the next candidate.
pub open spec fn step_after(
    candidates: Seq<u32>,
    place: int,
    answer: Result<VersionInfo, Error>,
) -> ProbeStep {
    match answer {
        Ok(version) => ProbeStep::Done(
            ProbeOutcome::Connected { baud_rate: candidates[place], version },
        ),
        Err(_) => step_at(candidates, place + 1),
    }
}

/// What a probe does next, given what came of the attempt at the candidate at
/// `tried`. A wrong baud rate is expected to surface as an error, so any error
/// simply moves on.
pub fn after_attempt(candidates: &[u32], tried: usize, answer: Result<VersionInfo, Error>) -> (next:
    ProbeStep)
    requires
        tried < candidates@.len(),
    ensures
        next == step_after(candidates@, tried as int, answer),
{
    match answer {
        Ok(version) => ProbeStep::Done(
            ProbeOutcome::Connected { baud_rate: candidates[tried], version },
        ),
        Err(_) => if tried < candidates.len() - 1 {
            ProbeStep::Try(candidates[tried + 1])
        } else {
            ProbeStep::Done(ProbeOutcome::NoResponse)
        },
    }
}

/// The rates that a probe attempts from `place` on, and what it ends with, where
/// `answers` holds what an attempt at each candidate comes to.
pub open spec fn probing(
    candidates: Seq<u32>,
    answers: Seq<Result<VersionInfo, Error>>,
    place: int,
) -> (Seq<u32>, ProbeOutcome)
    decreases candidates.len() - place,
{
    match step_at(candidates, place) {
        ProbeStep::Done(outcome) => (Seq::empty(), outcome),
        ProbeStep::Try(baud_rate) => match step_after(candidates, place, answers[place]) {
            ProbeStep::Done(outcome) => (seq![baud_rate], outcome),
            ProbeStep::Try(_) => {
                let rest = probing(candidates, answers, place + 1);
                (seq![baud_rate] + rest.0, rest.1)
            },
        },
    }
}

proof fn probing_from(
    candidates: Seq<u32>,
    answers: Seq<Result<VersionInfo, Error>>,
    place: int,
    heard: int,
)
    requires
        answers.len() == candidates.len(),
        0 <= place <= heard <= candidates.len(),
        forall|earlier: int| place <= earlier < heard ==> #[trigger] answers[earlier] is Err,
        heard < candidates.len() ==> answers[heard] is Ok,
    ensures
        heard == candidates.len() ==> probing(candidates, answers, place) == (
            candidates.skip(place),
            ProbeOutcome::NoResponse,
        ),
        heard < candidates.len() ==> probing(candidates, answers, place) == (
            candidates.subrange(place, heard + 1),
            ProbeOutcome::Connected {
                baud_rate: candidates[heard],
                version: answers[heard]->Ok_0,
            },
        ),
    decreases candidates.len() - place,
{
    if place < heard {
        assert(answers[place] is Err);
        probing_from(candidates, answers, place + 1, heard);
        if heard == candidates.len() {
            assert(seq![candidates[place]] + candidates.skip(place + 1) =~= candidates.skip(place));
            if place + 1 == candidates.len() {
                assert(seq![candidates[place]] =~= candidates.skip(place));
            }
        } else {
            assert(seq![candidates[place]] + candidates.subrange(place + 1, heard + 1)
                =~= candidates.subrange(place, heard + 1));
        }
    } else if heard < candidates.len() {
        assert(seq![candidates[place]] =~= candidates.subrange(place, heard + 1));
    } else {
        assert(candidates.skip(place) =~= Seq::empty());
    }
}

/// A probe attempts the candidates in order, each of them once, up to the first
/// that answers, and ends with that one. Where `heard` is past the last, none
/// answers: every candidate is attempted once, and there is no response.
pub proof fn a_probe_ends_at_the_first_answer(
    candidates: Seq<u32>,
    answers: Seq<Result<VersionInfo, Error>>,
    heard: int,
)
    requires
        answers.len() == candidates.len(),
        0 <= heard <= candidates.len(),
        forall|earlier: int| 0 <= earlier < heard ==> #[trigger] answers[earlier] is Err,
        heard < candidates.len() ==> answers[heard] is Ok,
    ensures
        heard == candidates.len() ==> probing(candidates, answers, 0) == (
            candidates,
            ProbeOutcome::NoResponse,
        ),
        heard < candidates.len() ==> probing(candidates, answers, 0) == (
            candidates.take(heard + 1),
            ProbeOutcome::Connected {
                baud_rate: candidates[heard],
                version: answers[heard]->Ok_0,
            },
        ),
{
    probing_from(candidates, answers, 0, heard);
    assert(candidates.skip(0) =~= candidates);
    if heard < candidates.len() {
        assert(candidates.subrange(0, heard + 1) =~= candidates.take(heard + 1));
    }
}

/// Whether an attempt at this rate can fail.
pub open spec fn unanswered<A: Fn(u32) -> Result<VersionInfo, Error>>(
    attempt: A,
    baud_rate: u32,
) -> bool {
    exists|error: Error|
        #[trigger] call_ensures(attempt, (baud_rate,), Err::<VersionInfo, Error>(error))
}

/// Whether the candidate at `place` is the first whose attempt succeeds, with
/// `version` for an answer.
pub open spec fn first_answer<A: Fn(u32) -> Result<VersionInfo, Error>>(
    candidates: Seq<u32>,
    attempt: A,
    place: int,
    version: VersionInfo,
) -> bool {
    &&& 0 <= place < candidates.len()
    &&& call_ensures(attempt, (candidates[place],), Ok::<VersionInfo, Error>(version))
    &&& forall|earlier: int|
        0 <= earlier < place ==> unanswered(attempt, #[trigger] candidates[earlier])
}

/// Whether `baud_rate` is the first candidate whose attempt succeeds, with
/// `version` for an answer.
pub open spec fn answers_first<A: Fn(u32) -> Result<VersionInfo, Error>>(
    candidates: Seq<u32>,
    attempt: A,
    baud_rate: u32,
    version: VersionInfo,
) -> bool {
    exists|place: int|
        #[trigger] first_answer(candidates, attempt, place, version) && candidates[place]
            == baud_rate
}

/// Whether no candidate's attempt succeeds.
pub open spec fn none_answers<A: Fn(u32) -> Result<VersionInfo, Error>>(
    candidates: Seq<u32>,
    attempt: A,
) -> bool {
    forall|place: int|
        0 <= place < candidates.len() ==> unanswered(attempt, #[trigger] candidates[place])
}

/// Whether each candidate may be attempted once none before it succeeded.
pub open spec fn may_attempt<A: Fn(u32) -> Result<VersionInfo, Error>>(
    candidates: Seq<u32>,
    attempt: A,
) -> bool {
    forall|place: int|
        0 <= place < candidates.len() && (forall|earlier: int|
            0 <= earlier < place ==> unanswered(attempt, #[trigger] candidates[earlier]))
            ==> call_requires(attempt, (#[trigger] candidates[place],))
}

/// Tries each candidate baud rate in order, returning the first one whose
/// connection attempt succeeds.
///
/// What follows an attempt is for [`after_attempt`] to say. A closure keeps no
/// record of how often it was called, so that each candidate is attempted once
/// is said of those steps, in [`a_probe_ends_at_the_first_answer`].
pub fn discover_baud_rate<A>(candidates: &[u32], attempt: A) -> (outcome: ProbeOutcome)
    where A: Fn(u32) -> Result<VersionInfo, Error>,

    requires
        may_attempt(candidates@, attempt),
    ensures
        match outcome {
            ProbeOutcome::Connected { baud_rate, version } => answers_first(
                candidates@,
                attempt,
                baud_rate,
                version,
            ),
            ProbeOutcome::NoResponse => none_answers(candidates@, attempt),
        },
{
    let mut tried: usize = 0;
    while tried < candidates.len()
        invariant
            tried <= candidates@.len(),
            may_attempt(candidates@, attempt),
            forall|earlier: int|
                0 <= earlier < tried ==> unanswered(attempt, #[trigger] candidates@[earlier]),
        decreases candidates@.len() - tried,
    {
        let baud_rate = candidates[tried];
        assert(call_requires(attempt, (candidates@[tried as int],)));
        let answer = attempt(baud_rate);
        let ghost came = answer;
        proof {
            match came {
                Ok(version) => {
                    assert(first_answer(candidates@, attempt, tried as int, version));
                    assert(answers_first(candidates@, attempt, baud_rate, version));
                },
                Err(error) => {
                    assert(call_ensures(attempt, (baud_rate,), Err::<VersionInfo, Error>(error)));
                    assert(unanswered(attempt, candidates@[tried as int]));
                },
            }
        }
        if let ProbeStep::Done(outcome) = after_attempt(candidates, tried, answer) {
            return outcome;
        }
        tried += 1;
    }
    ProbeOutcome::NoResponse
}

/// A list of rates in words.
pub open spec fn rates_words(rates: Seq<u32>) -> Seq<char>
    decreases rates.len(),
{
    if rates.len() == 0 {
        Seq::empty()
    } else if rates.len() == 1 {
        decimal(rates[0] as nat)
    } else {
        rates_words(rates.drop_last()) + ", "@ + decimal(rates.last() as nat)
    }
}

fn push_rates(text: &mut String, rates: &[u32])
    ensures
        final(text)@ == old(text)@ + rates_words(rates@),
{
    let mut index: usize = 0;
    proof {
        assert(rates@.take(0) =~= Seq::empty());
        assert(text@ =~= old(text)@ + rates_words(rates@.take(0)));
    }
    while index < rates.len()
        invariant
            index <= rates@.len(),
            text@ == old(text)@ + rates_words(rates@.take(index as int)),
        decreases rates@.len() - index,
    {
        let ghost longer = rates@.take(index + 1);
        if index > 0 {
            text.append(", ");
        }
        push_decimal(text, rates[index] as u64);
        proof {
            assert(longer.drop_last() =~= rates@.take(index as int));
            assert(longer.last() == rates@[index as int]);
            assert(text@ =~= old(text)@ + rates_words(longer));
        }
        index += 1;
    }
    proof {
        assert(rates@.take(index as int) =~= rates@);
    }
}

/// What is said when no candidate rate got an answer.
pub open spec fn no_response_words(port: Seq<char>, rates: Seq<u32>) -> Seq<char> {
    "No response from camera on "@ + port + " at any of the candidate baud rates: ["@
        + rates_words(rates) + "]"@
}

/// A live connection, ready to hand to a worker.
#[derive(Debug)]
pub struct Connected<C> {
    /// The connected camera client.
    pub camera: C,
    /// How the connection was made, phrased for display.
    pub link: String,
    /// The camera's reply to the version inquiry that proved the link works.
    pub version: VersionInfo,
}

/// Whether a connection is one at the first rate that got an answer.
pub open spec fn linked_at<
    C,
    P: Fn(u32) -> Result<VersionInfo, Error>,
    O: FnOnce(u32) -> Result<C, Error>,
>(probe: P, open: O, connected: Connected<C>) -> bool {
    exists|baud_rate: u32|
        {
            &&& #[trigger] answers_first(
                DEFAULT_CAMERA_BAUD_RATES@,
                probe,
                baud_rate,
                connected.version,
            )
            &&& call_ensures(open, (baud_rate,), Ok::<C, Error>(connected.camera))
            &&& connected.link@ == "Connected at "@ + decimal(baud_rate as nat) + " baud"@
        }
}

/// Whether `message` says that a rate got an answer, but that the port could
/// not be opened at it a second time.
pub open spec fn lost_again<
    C,
    P: Fn(u32) -> Result<VersionInfo, Error>,
    O: FnOnce(u32) -> Result<C, Error>,
>(probe: P, open: O, message: Seq<char>) -> bool {
    exists|baud_rate: u32, version: VersionInfo, error: Error|
        {
            &&& #[trigger] answers_first(DEFAULT_CAMERA_BAUD_RATES@, probe, baud_rate, version)
            &&& #[trigger] call_ensures(open, (baud_rate,), Err::<C, Error>(error))
            &&& message == "Connected during discovery but the follow-up connection failed: "@
                + error_message(error)
        }
}

/// What is said when nothing answered on a serial port.
pub fn no_response(port: &str) -> (message: String)
    ensures
        message@ == no_response_words(port@, DEFAULT_CAMERA_BAUD_RATES@),
{
    let rates: [u32; CANDIDATES] = DEFAULT_CAMERA_BAUD_RATES;
    let mut message = joined("No response from camera on ", port);
    message.append(" at any of the candidate baud rates: [");
    push_rates(&mut message, rates.as_slice());
    message.append("]");
    message
}

/// The connection at a rate that got an answer, once the port was opened at it
/// again, or what is said where that failed.
pub fn connected_at<C>(baud_rate: u32, version: VersionInfo, opened: Result<C, Error>) -> (connected:
    Result<Connected<C>, String>)
    ensures
        match opened {
            Ok(camera) => {
                &&& connected is Ok
                &&& connected->Ok_0.camera == camera
                &&& connected->Ok_0.version == version
                &&& connected->Ok_0.link@ == "Connected at "@ + decimal(baud_rate as nat)
                    + " baud"@
            },
            Err(error) => connected is Err && connected->Err_0@
                == "Connected during discovery but the follow-up connection failed: "@
                + error_message(error),
        },
{
    match opened {
        Ok(camera) => {
            let mut link = "Connected at ".to_owned();
            push_decimal(&mut link, baud_rate as u64);
            link.append(" baud");
            Ok(Connected { camera, link, version })
        },
        Err(error) => Err(
            joined(
                "Connected during discovery but the follow-up connection failed: ",
                error.message().as_str(),
            ),
        ),
    }
}

/// Connects over serial, which means discovering the baud rate first: `probe`
/// opens the port at a rate and asks for the version, and `open` opens it once
/// more for a client to keep.
pub fn connect_serial<C, P, O>(port: &str, probe: P, open: O) -> (connected: Result<
    Connected<C>,
    String,
>)
    where P: Fn(u32) -> Result<VersionInfo, Error>, O: FnOnce(u32) -> Result<C, Error>,

    requires
        may_attempt(DEFAULT_CAMERA_BAUD_RATES@, probe),
        forall|baud_rate: u32, version: VersionInfo| #[trigger]
            answers_first(DEFAULT_CAMERA_BAUD_RATES@, probe, baud_rate, version)
                ==> call_requires(open, (baud_rate,)),
    ensures
        match connected {
            Ok(connected) => linked_at(probe, open, connected),
            Err(message) => {
                ||| {
                    &&& none_answers(DEFAULT_CAMERA_BAUD_RATES@, probe)
                    &&& message@ == no_response_words(port@, DEFAULT_CAMERA_BAUD_RATES@)
                }
                ||| lost_again::<C, P, O>(probe, open, message@)
            },
        },
{
    let rates: [u32; CANDIDATES] = DEFAULT_CAMERA_BAUD_RATES;
    match discover_baud_rate(rates.as_slice(), probe) {
        ProbeOutcome::NoResponse => Err(no_response(port)),
        ProbeOutcome::Connected { baud_rate, version } => {
            assert(answers_first(DEFAULT_CAMERA_BAUD_RATES@, probe, baud_rate, version));
            let opened = open(baud_rate);
            let ghost came = opened;
            let connected = connected_at(baud_rate, version, opened);
            proof {
                match came {
                    Ok(camera) => {
                        assert(call_ensures(open, (baud_rate,), Ok::<C, Error>(camera)));
                        assert(linked_at(probe, open, connected->Ok_0));
                    },
                    Err(error) => {
                        assert(call_ensures(open, (baud_rate,), Err::<C, Error>(error)));
                        assert(lost_again::<C, P, O>(probe, open, connected->Err_0@));
                    },
                }
            }
            connected
        },
    }
}

/// Connects over TCP, which needs no discovery: one connection and one version
/// inquiry settles whether a camera is really there.
pub fn connect_tcp<C, O, V>(address: &str, open: O, version: V) -> (connected: Result<
    Connected<C>,
    String,
>)
    where O: FnOnce() -> Result<C, Error>, V: FnOnce(&C) -> Result<VersionInfo, Error>,

    requires
        call_requires(open, ()),
        forall|camera: C| #[trigger]
            call_ensures(open, (), Ok::<C, Error>(camera)) ==> call_requires(version, (&camera,)),
    ensures
        match connected {
            Ok(connected) => {
                &&& call_ensures(open, (), Ok::<C, Error>(connected.camera))
                &&& call_ensures(
                    version,
                    (&connected.camera,),
                    Ok::<VersionInfo, Error>(connected.version),
                )
                &&& connected.link@ == "Connected to "@ + address@ + " over TCP"@
            },
            Err(message) => {
                ||| exists|error: Error|
                    {
                        &&& #[trigger] call_ensures(open, (), Err::<C, Error>(error))
                        &&& message@ == "Could not reach "@ + address@ + " over TCP: "@
                            + error_message(error)
                    }
                ||| exists|camera: C, error: Error|
                    {
                        &&& call_ensures(open, (), Ok::<C, Error>(camera))
                        &&& #[trigger] call_ensures(
                            version,
                            (&camera,),
                            Err::<VersionInfo, Error>(error),
                        )
                        &&& message@ == "Connected to "@ + address@
                            + ", but it didn't answer a version inquiry: "@ + error_message(error)
                    }
            },
        },
{
    let camera = match open() {
        Ok(camera) => camera,
        Err(error) => {
            let mut message = joined("Could not reach ", address);
            message.append(" over TCP: ");
            message.append(error.message().as_str());
            assert(call_ensures(open, (), Err::<C, Error>(error)));
            return Err(message);
        },
    };
    match version(&camera) {
        Ok(version) => {
            let mut link = joined("Connected to ", address);
            link.append(" over TCP");
            Ok(Connected { camera, link, version })
        },
        Err(error) => {
            let mut message = joined("Connected to ", address);
            message.append(", but it didn't answer a version inquiry: ");
            message.append(error.message().as_str());
            assert(call_ensures(version, (&camera,), Err::<VersionInfo, Error>(error)));
            Err(message)
        },
    }
}

/// The name of the one vendor whose number is documented. VISCA has no
/// registry of vendors; any other just shows as a number.
pub open spec fn known_vendor(vendor: u16) -> Option<Seq<char>> {
    if vendor == 0x0020 {
        Some("Sony"@)
    } else {
        None
    }
}

/// The name of a vendor, if it is known.
pub fn vendor_name(vendor: u16) -> (name: Option<&'static str>)
    ensures
        match name {
            Some(name) => known_vendor(vendor) == Some(name@),
            None => known_vendor(vendor) is None,
        },
{
    if vendor == 0x0020 {
        Some("Sony")
    } else {
        None
    }
}

/// A vendor's number in words.
pub open spec fn vendor_number(vendor: u16) -> Seq<char> {
    "0x"@ + hex(vendor as nat, 4)
}

/// A version reply in words.
pub open spec fn version_words(info: VersionInfo) -> Seq<char> {
    "vendor="@ + match known_vendor(info.vendor) {
        Some(name) => name + " ("@ + vendor_number(info.vendor) + ")"@,
        None => vendor_number(info.vendor),
    } + " model=0x"@ + hex(info.model as nat, 4) + " rom=0x"@ + hex(info.rom_version as nat, 8)
        + " max_socket="@ + decimal(info.max_socket as nat)
}

/// Formats a camera's version-inquiry reply for display.
pub fn format_version(info: &VersionInfo) -> (text: String)
    ensures
        text@ == version_words(*info),
{
    let mut text = "vendor=".to_owned();
    match vendor_name(info.vendor) {
        Some(name) => {
            text.append(name);
            text.append(" (");
            text.append("0x");
            push_hex(&mut text, info.vendor as u32, 4);
            text.append(")");
        },
        None => {
            text.append("0x");
            push_hex(&mut text, info.vendor as u32, 4);
        },
    }
    proof {
        assert(text@ =~= "vendor="@ + match known_vendor(info.vendor) {
            Some(name) => name + " ("@ + vendor_number(info.vendor) + ")"@,
            None => vendor_number(info.vendor),
        });
    }
    text.append(" model=0x");
    push_hex(&mut text, info.model as u32, 4);
    text.append(" rom=0x");
    push_hex(&mut text, info.rom_version, 8);
    text.append(" max_socket=");
    push_decimal(&mut text, info.max_socket as u64);
    text
}

/// Who made the camera, for a header with no room for the whole reply.
pub fn format_camera(info: &VersionInfo) -> (text: String)
    ensures
        text@ == match known_vendor(info.vendor) {
            Some(name) => name,
            None => vendor_number(info.vendor),
        },
{
    match vendor_name(info.vendor) {
        Some(name) => name.to_owned(),
        None => {
            let mut text = "0x".to_owned();
            push_hex(&mut text, info.vendor as u32, 4);
            text
        },
    }
}

/// A text that starts with the scheme names the network endpoint that follows
/// it, and any other text names the serial port that it spells.
pub proof fn a_scheme_names_an_endpoint(text: Seq<char>, target: Target)
    requires
        names(text, target),
    ensures
        target is Tcp <==> "tcp://"@.is_prefix_of(text),
        target matches Target::Tcp(address) ==> address@ == text.skip("tcp://"@.len() as int),
        target matches Target::Serial(port) ==> port@ == text,
{
    let scheme = "tcp://"@;
    if let Target::Tcp(address) = target {
        assert(scheme.is_prefix_of(scheme + address@));
        assert((scheme + address@).skip(scheme.len() as int) =~= address@);
    }
}

/// Two rates are tried, the slower one first.
pub proof fn two_rates_are_tried()
    ensures
        DEFAULT_CAMERA_BAUD_RATES@ == seq![9600u32, 38400],
{
    assert(DEFAULT_CAMERA_BAUD_RATES@ =~= seq![9600u32, 38400]);
}

/// One rate after another is listed with a comma between them, each in decimal.
pub proof fn rates_are_listed_in_order(rates: Seq<u32>, rate: u32)
    ensures
        rates_words(Seq::empty()).len() == 0,
        rates_words(seq![rate]) == decimal(rate as nat),
        rates.len() > 0 ==> rates_words(rates.push(rate)) == rates_words(rates) + ", "@ + decimal(
            rate as nat,
        ),
{
    assert(rates.push(rate).drop_last() =~= rates);
    assert(rates.push(rate).last() == rate);
}

/// What is said where nothing answered names the port and the rates.
pub proof fn silence_names_the_port_and_the_rates(port: Seq<char>, rates: Seq<u32>)
    ensures
        no_response_words(port, rates) == "No response from camera on "@ + port
            + " at any of the candidate baud rates: ["@ + rates_words(rates) + "]"@,
{
}

/// The one vendor with a name is known by its number, and the number is told
/// in four hexadecimal digits. A version reply tells all four of its numbers.
pub proof fn a_version_tells_its_numbers(info: VersionInfo)
    ensures
        info.vendor == 0x20 ==> known_vendor(info.vendor) == Some("Sony"@),
        info.vendor != 0x20 ==> known_vendor(info.vendor) is None,
        vendor_number(info.vendor) == "0x"@ + hex(info.vendor as nat, 4),
        ends_with(
            version_words(info),
            " model=0x"@ + hex(info.model as nat, 4) + " rom=0x"@ + hex(info.rom_version as nat, 8)
                + " max_socket="@ + decimal(info.max_socket as nat),
        ),
        info.vendor == 0x20 ==> starts_with(
            version_words(info),
            "vendor=Sony (0x"@ + hex(info.vendor as nat, 4) + ")"@,
        ),
        info.vendor != 0x20 ==> starts_with(
            version_words(info),
            "vendor=0x"@ + hex(info.vendor as nat, 4),
        ),
{
    let words = version_words(info);
    let end = " model=0x"@ + hex(info.model as nat, 4) + " rom=0x"@ + hex(
        info.rom_version as nat,
        8,
    ) + " max_socket="@ + decimal(info.max_socket as nat);
    assert(words.skip(words.len() - end.len()) =~= end);
    reveal_strlit("vendor=");
    reveal_strlit("Sony");
    reveal_strlit(" (");
    reveal_strlit("0x");
    reveal_strlit("vendor=Sony (0x");
    reveal_strlit("vendor=0x");
    if info.vendor == 0x20 {
        let start = "vendor=Sony (0x"@ + hex(info.vendor as nat, 4) + ")"@;
        assert("vendor="@ + ("Sony"@ + " ("@ + ("0x"@ + hex(info.vendor as nat, 4)) + ")"@)
            =~= start);
        assert(words.take(start.len() as int) =~= start);
    } else {
        let start = "vendor=0x"@ + hex(info.vendor as nat, 4);
        assert("vendor="@ + ("0x"@ + hex(info.vendor as nat, 4)) =~= start);
        assert(words.take(start.len() as int) =~= start);
    }
}

} // verus!
