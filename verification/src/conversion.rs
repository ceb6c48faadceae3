//! Orchestration of the external transcoder that turns one input
//! video into an on-disk asset.
//!
//! The orchestrator owns the naming convention (`videos/<id>`,
//! `videos/<id>/<id>.m3u8`, `videos/<id>/<id>%d.ts`), the fixed
//! argument list handed to the transcoder binary, and the decision
//! logic of the conversion. The outside steps themselves — testing
//! that the input exists, creating the directory, running the
//! process — are performed by a driver, which feeds each outcome back
//! as a [`ConvertEvent`]; the machine moves exactly as [`next_state`]
//! says. A failed transcode leaves the already-created directory in
//! place for diagnostics; nothing is rolled back.

use vstd::prelude::*;
use crate::identifier::valid_id;

verus! {

/// The directory of an asset: `videos/<id>`.
pub open spec fn video_dir_spec(id: Seq<char>) -> Seq<char> {
    "videos/"@ + id
}

/// The manifest file of an asset: `videos/<id>/<id>.m3u8`.
pub open spec fn manifest_path_spec(id: Seq<char>) -> Seq<char> {
    video_dir_spec(id) + "/"@ + id + ".m3u8"@
}

/// The segment filename pattern handed to the transcoder:
/// `videos/<id>/<id>%d.ts`.
pub open spec fn segment_pattern_spec(id: Seq<char>) -> Seq<char> {
    video_dir_spec(id) + "/"@ + id + "%d.ts"@
}

pub fn video_dir(id: &str) -> (r: String)
    ensures
        r@ == video_dir_spec(id@),
{
    let mut s = String::from_str("videos/");
    s.append(id);
    s
}

pub fn manifest_path(id: &str) -> (r: String)
    ensures
        r@ == manifest_path_spec(id@),
{
    let mut s = video_dir(id);
    s.append("/");
    s.append(id);
    s.append(".m3u8");
    proof {
        assert(s@ =~= manifest_path_spec(id@));
    }
    s
}

pub fn segment_pattern(id: &str) -> (r: String)
    ensures
        r@ == segment_pattern_spec(id@),
{
    let mut s = video_dir(id);
    s.append("/");
    s.append(id);
    s.append("%d.ts");
    proof {
        assert(s@ =~= segment_pattern_spec(id@));
    }
    s
}

/// The decimal digit `d` as a character.
pub open spec fn digit_char(d: nat) -> char {
    "0123456789"@[d as int]
}

/// The decimal notation of `n`, without leading zeroes (`0` for 0).
/// Segment files are numbered this way by the transcoder.
pub open spec fn decimal_digits(n: nat) -> Seq<char>
    decreases n,
{
    if n < 10 {
        seq![digit_char(n)]
    } else {
        decimal_digits(n / 10) + seq![digit_char(n % 10)]
    }
}

/// The decimal notation is never empty, and each of its characters is
/// a decimal digit.
pub proof fn lemma_decimal_digits_chars(n: nat)
    ensures
        decimal_digits(n).len() >= 1,
        forall|i: int| 0 <= i < decimal_digits(n).len()
            ==> "0123456789"@.contains(#[trigger] decimal_digits(n)[i]),
    decreases n,
{
    reveal_strlit("0123456789");
    if n < 10 {
        assert("0123456789"@.contains(digit_char(n)));
    } else {
        lemma_decimal_digits_chars(n / 10);
        assert("0123456789"@.contains(digit_char(n % 10)));
        assert forall|i: int| 0 <= i < decimal_digits(n).len() implies "0123456789"@.contains(
            #[trigger] decimal_digits(n)[i],
        ) by {
            if i < decimal_digits(n / 10).len() {
                assert(decimal_digits(n)[i] == decimal_digits(n / 10)[i]);
            } else {
                assert(decimal_digits(n)[i] == digit_char(n % 10));
            }
        }
    }
}

/// Append the decimal notation of `n` to `out`.
fn push_decimal(n: u32, out: &mut String)
    ensures
        final(out)@ == old(out)@ + decimal_digits(n as nat),
    decreases n,
{
    let digits = "0123456789";
    proof {
        reveal_strlit("0123456789");
    }
    if n >= 10 {
        push_decimal(n / 10, out);
    }
    let d = (n % 10) as usize;
    let c = digits.substring_char(d, d + 1);
    proof {
        assert(c@ =~= seq![digit_char((n % 10) as nat)]);
    }
    out.append(c);
    proof {
        if n < 10 {
            assert(decimal_digits(n as nat) =~= seq![digit_char(n as nat)]);
            assert(out@ =~= old(out)@ + decimal_digits(n as nat));
        } else {
            assert(out@ =~= old(out)@ + decimal_digits(n as nat));
        }
    }
}

/// The file of segment `n` of an asset: `videos/<id>/<id><n>.ts`.
/// Segment indices are contiguous from 0, as the transcoder produces
/// them.
pub open spec fn segment_path_spec(id: Seq<char>, n: nat) -> Seq<char> {
    video_dir_spec(id) + "/"@ + id + decimal_digits(n) + ".ts"@
}

/// The name of the transcoder binary.
pub open spec fn transcoder_program_spec() -> Seq<char> {
    "ffmpeg"@
}

pub fn transcoder_program() -> (r: String)
    ensures
        r@ == transcoder_program_spec(),
{
    String::from_str("ffmpeg")
}

/// The fixed, non-configurable argument list of one transcoder run:
/// hardware-acceleration auto-detect, the input path, 10-second
/// segments, an unbounded manifest segment list, H.264 video, AAC
/// audio, HLS output, and the segment pattern and manifest path of
/// the naming convention.
pub open spec fn transcoder_args_spec(input: Seq<char>, id: Seq<char>) -> Seq<Seq<char>> {
    seq![
        "-hwaccel"@, "auto"@,
        "-i"@, input,
        "-hls_time"@, "10"@,
        "-hls_list_size"@, "0"@,
        "-c:v"@, "libx264"@,
        "-c:a"@, "aac"@,
        "-f"@, "hls"@,
        "-hls_segment_filename"@, segment_pattern_spec(id),
        manifest_path_spec(id),
    ]
}

pub fn transcoder_args(input: &str, id: &str) -> (v: Vec<String>)
    ensures
        v.deep_view() == transcoder_args_spec(input@, id@),
{
    let mut v: Vec<String> = Vec::new();
    v.push(String::from_str("-hwaccel"));
    v.push(String::from_str("auto"));
    v.push(String::from_str("-i"));
    v.push(String::from_str(input));
    v.push(String::from_str("-hls_time"));
    v.push(String::from_str("10"));
    v.push(String::from_str("-hls_list_size"));
    v.push(String::from_str("0"));
    v.push(String::from_str("-c:v"));
    v.push(String::from_str("libx264"));
    v.push(String::from_str("-c:a"));
    v.push(String::from_str("aac"));
    v.push(String::from_str("-f"));
    v.push(String::from_str("hls"));
    v.push(String::from_str("-hls_segment_filename"));
    v.push(segment_pattern(id));
    v.push(manifest_path(id));
    proof {
        assert(v.deep_view() =~~= transcoder_args_spec(input@, id@));
    }
    v
}

/// A conversion failure. `TranscoderExitFailure` carries the captured
/// standard-error text of the transcoder run.
#[derive(Debug)]
pub enum ConversionError {
    InputNotFound(String),
    DirectoryCreationFailure,
    TranscoderSpawnFailure,
    TranscoderExitFailure(String),
}

/// The spec-level picture of a conversion failure.
pub enum ErrorSpec {
    InputNotFound(Seq<char>),
    DirectoryCreationFailure,
    TranscoderSpawnFailure,
    TranscoderExitFailure(Seq<char>),
}

impl View for ConversionError {
    type V = ErrorSpec;

    open spec fn view(&self) -> ErrorSpec {
        match self {
            ConversionError::InputNotFound(p) => ErrorSpec::InputNotFound(p@),
            ConversionError::DirectoryCreationFailure => ErrorSpec::DirectoryCreationFailure,
            ConversionError::TranscoderSpawnFailure => ErrorSpec::TranscoderSpawnFailure,
            ConversionError::TranscoderExitFailure(d) => ErrorSpec::TranscoderExitFailure(d@),
        }
    }
}

/// The human-readable message of each failure.
pub open spec fn error_message_spec(e: ErrorSpec) -> Seq<char> {
    match e {
        ErrorSpec::InputNotFound(p) => "Input file does not exist: "@ + p,
        ErrorSpec::DirectoryCreationFailure => "Failed to create the asset directory"@,
        ErrorSpec::TranscoderSpawnFailure => "Failed to start the transcoder process"@,
        ErrorSpec::TranscoderExitFailure(d) => "FFmpeg conversion failed:\n"@ + d,
    }
}

impl ConversionError {
    pub fn message(&self) -> (r: String)
        ensures
            r@ == error_message_spec(self@),
    {
        match self {
            ConversionError::InputNotFound(p) => {
                let mut s = String::from_str("Input file does not exist: ");
                s.append(p.as_str());
                s
            },
            ConversionError::DirectoryCreationFailure => {
                String::from_str("Failed to create the asset directory")
            },
            ConversionError::TranscoderSpawnFailure => {
                String::from_str("Failed to start the transcoder process")
            },
            ConversionError::TranscoderExitFailure(d) => {
                let mut s = String::from_str("FFmpeg conversion failed:\n");
                s.append(d.as_str());
                s
            },
        }
    }
}

/// The descriptor of one converted asset: the identifier that names
/// its directory, its manifest and its segments. An asset is
/// immutable once produced; existence of its files is determined
/// lazily, by lookup at request time.
pub struct Asset {
    id: String,
}

impl View for Asset {
    type V = Seq<char>;

    closed spec fn view(&self) -> Seq<char> {
        self.id@
    }
}

impl Asset {
    /// A well-formed asset is named by a well-formed identifier.
    pub open spec fn wf(self) -> bool {
        valid_id(self@)
    }

    pub fn new(id: String) -> (a: Asset)
        requires
            valid_id(id@),
        ensures
            a@ == id@,
            a.wf(),
    {
        Asset { id }
    }

    pub fn id(&self) -> (r: &String)
        ensures
            r@ == self@,
    {
        &self.id
    }

    /// The asset's directory, `videos/<id>`.
    pub fn directory(&self) -> (r: String)
        ensures
            r@ == video_dir_spec(self@),
    {
        video_dir(self.id.as_str())
    }

    /// The asset's manifest file, `videos/<id>/<id>.m3u8`.
    pub fn manifest(&self) -> (r: String)
        ensures
            r@ == manifest_path_spec(self@),
    {
        manifest_path(self.id.as_str())
    }

    /// The asset's segment file `n`, `videos/<id>/<id><n>.ts`.
    pub fn segment_path(&self, n: u32) -> (r: String)
        ensures
            r@ == segment_path_spec(self@, n as nat),
    {
        let mut s = video_dir(self.id.as_str());
        s.append("/");
        s.append(self.id.as_str());
        push_decimal(n, &mut s);
        s.append(".ts");
        proof {
            assert(s@ =~= segment_path_spec(self@, n as nat));
        }
        s
    }
}

/// The outcome of the outside step the current state calls for,
/// observed by the driver and fed back to the machine.
pub enum ConvertEvent {
    /// Whether the input path exists as a readable file.
    InputChecked(bool),
    /// Whether the asset directory (with missing parents) was created.
    DirectoryCreated(bool),
    /// The transcoder process could not be started.
    TranscoderFailedToStart,
    /// The transcoder ran to completion: exit success, and the
    /// captured standard-error text.
    TranscoderExited(bool, String),
}

/// The spec-level picture of an event.
pub enum EventSpec {
    InputChecked(bool),
    DirectoryCreated(bool),
    TranscoderFailedToStart,
    TranscoderExited(bool, Seq<char>),
}

impl View for ConvertEvent {
    type V = EventSpec;

    open spec fn view(&self) -> EventSpec {
        match self {
            ConvertEvent::InputChecked(ok) => EventSpec::InputChecked(*ok),
            ConvertEvent::DirectoryCreated(ok) => EventSpec::DirectoryCreated(*ok),
            ConvertEvent::TranscoderFailedToStart => EventSpec::TranscoderFailedToStart,
            ConvertEvent::TranscoderExited(ok, d) => EventSpec::TranscoderExited(*ok, d@),
        }
    }
}

/// The states of one conversion. `Ready` and `Failed` are terminal.
pub enum ConvertState {
    CheckingInput,
    CreatingDirectory,
    RunningTranscoder,
    Ready,
    Failed(ConversionError),
}

/// The spec-level picture of a state.
pub enum StateSpec {
    CheckingInput,
    CreatingDirectory,
    RunningTranscoder,
    Ready,
    Failed(ErrorSpec),
}

impl View for ConvertState {
    type V = StateSpec;

    open spec fn view(&self) -> StateSpec {
        match self {
            ConvertState::CheckingInput => StateSpec::CheckingInput,
            ConvertState::CreatingDirectory => StateSpec::CreatingDirectory,
            ConvertState::RunningTranscoder => StateSpec::RunningTranscoder,
            ConvertState::Ready => StateSpec::Ready,
            ConvertState::Failed(e) => StateSpec::Failed(e@),
        }
    }
}

/// Which events the driver may feed in each state: exactly the
/// outcome of the outside step that state calls for.
pub open spec fn state_expects(s: StateSpec, ev: EventSpec) -> bool {
    match (s, ev) {
        (StateSpec::CheckingInput, EventSpec::InputChecked(_)) => true,
        (StateSpec::CreatingDirectory, EventSpec::DirectoryCreated(_)) => true,
        (StateSpec::RunningTranscoder, EventSpec::TranscoderFailedToStart) => true,
        (StateSpec::RunningTranscoder, EventSpec::TranscoderExited(_, _)) => true,
        _ => false,
    }
}

/// A state that expects no further event.
pub open spec fn is_terminal(s: StateSpec) -> bool {
    s is Ready || s is Failed
}

/// The transition function of the conversion: a missing input fails
/// the conversion at once; a created directory leads to the
/// transcoder run; a zero exit is success; a non-zero exit carries
/// the captured diagnostic. An event a state does not expect leaves
/// it unchanged.
pub open spec fn next_state(s: StateSpec, input: Seq<char>, ev: EventSpec) -> StateSpec {
    match (s, ev) {
        (StateSpec::CheckingInput, EventSpec::InputChecked(true)) => StateSpec::CreatingDirectory,
        (StateSpec::CheckingInput, EventSpec::InputChecked(false)) => StateSpec::Failed(
            ErrorSpec::InputNotFound(input),
        ),
        (StateSpec::CreatingDirectory, EventSpec::DirectoryCreated(true)) => StateSpec::RunningTranscoder,
        (StateSpec::CreatingDirectory, EventSpec::DirectoryCreated(false)) => StateSpec::Failed(
            ErrorSpec::DirectoryCreationFailure,
        ),
        (StateSpec::RunningTranscoder, EventSpec::TranscoderFailedToStart) => StateSpec::Failed(
            ErrorSpec::TranscoderSpawnFailure,
        ),
        (StateSpec::RunningTranscoder, EventSpec::TranscoderExited(true, _)) => StateSpec::Ready,
        (StateSpec::RunningTranscoder, EventSpec::TranscoderExited(false, d)) => StateSpec::Failed(
            ErrorSpec::TranscoderExitFailure(d),
        ),
        (_, _) => s,
    }
}

/// One conversion in flight: the input path, the identifier that will
/// name the asset, and the current state.
pub struct Conversion {
    input: String,
    id: String,
    state: ConvertState,
}

/// The spec-level picture of a conversion.
pub struct ConversionSpec {
    pub input: Seq<char>,
    pub id: Seq<char>,
    pub state: StateSpec,
}

impl View for Conversion {
    type V = ConversionSpec;

    closed spec fn view(&self) -> ConversionSpec {
        ConversionSpec { input: self.input@, id: self.id@, state: self.state@ }
    }
}

impl Conversion {
    /// A well-formed conversion is named by a well-formed identifier.
    pub open spec fn wf(self) -> bool {
        valid_id(self@.id)
    }

    /// Begin a conversion of `input` under identifier `id`, at the
    /// input-checking step.
    pub fn new(input: String, id: String) -> (c: Conversion)
        requires
            valid_id(id@),
        ensures
            c@.input == input@,
            c@.id == id@,
            c@.state == StateSpec::CheckingInput,
            c.wf(),
    {
        Conversion { input, id, state: ConvertState::CheckingInput }
    }

    pub fn input(&self) -> (r: &String)
        ensures
            r@ == self@.input,
    {
        &self.input
    }

    pub fn id(&self) -> (r: &String)
        ensures
            r@ == self@.id,
    {
        &self.id
    }

    pub fn state(&self) -> (r: &ConvertState)
        ensures
            r@ == self@.state,
    {
        &self.state
    }

    /// Feed back the outcome of the outside step the current state
    /// calls for; the machine moves exactly as [`next_state`] says.
    pub fn step(&mut self, ev: ConvertEvent)
        requires
            state_expects(old(self)@.state, ev@),
        ensures
            final(self)@.input == old(self)@.input,
            final(self)@.id == old(self)@.id,
            final(self)@.state == next_state(old(self)@.state, old(self)@.input, ev@),
    {
        match ev {
            ConvertEvent::InputChecked(ok) => {
                if ok {
                    self.state = ConvertState::CreatingDirectory;
                } else {
                    self.state = ConvertState::Failed(
                        ConversionError::InputNotFound(self.input.clone()),
                    );
                }
            },
            ConvertEvent::DirectoryCreated(ok) => {
                if ok {
                    self.state = ConvertState::RunningTranscoder;
                } else {
                    self.state = ConvertState::Failed(ConversionError::DirectoryCreationFailure);
                }
            },
            ConvertEvent::TranscoderFailedToStart => {
                self.state = ConvertState::Failed(ConversionError::TranscoderSpawnFailure);
            },
            ConvertEvent::TranscoderExited(ok, d) => {
                if ok {
                    self.state = ConvertState::Ready;
                } else {
                    self.state = ConvertState::Failed(ConversionError::TranscoderExitFailure(d));
                }
            },
        }
    }

    /// The outcome of a finished conversion: the asset descriptor on
    /// success, the failure otherwise.
    pub fn into_result(self) -> (r: Result<Asset, ConversionError>)
        requires
            is_terminal(self@.state),
            self.wf(),
        ensures
            match r {
                Ok(a) => self@.state == StateSpec::Ready && a@ == self@.id && a.wf(),
                Err(e) => self@.state matches StateSpec::Failed(f) && e@ == f,
            },
    {
        match self.state {
            ConvertState::Ready => Ok(Asset::new(self.id)),
            ConvertState::Failed(e) => Err(e),
            _ => {
                proof {
                    assert(false);
                }
                Err(ConversionError::DirectoryCreationFailure)
            },
        }
    }
}

/// Law: a conversion fails with `InputNotFound` only out of the
/// input-checking state — the initial one, reached before any
/// directory creation is called for — and the failure carries the
/// input path.
pub proof fn lemma_input_not_found_only_first(s: StateSpec, input: Seq<char>, ev: EventSpec)
    requires
        state_expects(s, ev),
        next_state(s, input, ev) matches StateSpec::Failed(f) && f matches ErrorSpec::InputNotFound(p),
    ensures
        s == StateSpec::CheckingInput,
        next_state(s, input, ev) == StateSpec::Failed(ErrorSpec::InputNotFound(input)),
{
}

/// Law: the directory-creating state is entered only after the input
/// check came back positive; no directory is ever called for on a
/// missing input.
pub proof fn lemma_directory_needs_input(s: StateSpec, input: Seq<char>, ev: EventSpec)
    requires
        state_expects(s, ev),
        next_state(s, input, ev) == StateSpec::CreatingDirectory,
    ensures
        s == StateSpec::CheckingInput,
        ev == EventSpec::InputChecked(true),
{
}

/// The state after feeding a sequence of events, one by one.
pub open spec fn run(s: StateSpec, input: Seq<char>, evs: Seq<EventSpec>) -> StateSpec
    decreases evs.len(),
{
    if evs.len() == 0 {
        s
    } else {
        run(next_state(s, input, evs[0]), input, evs.skip(1))
    }
}

/// A run splits at any point: the events up to it, then the rest.
pub proof fn lemma_run_split(s: StateSpec, input: Seq<char>, evs: Seq<EventSpec>, k: int)
    requires
        0 <= k <= evs.len(),
    ensures
        run(s, input, evs) == run(run(s, input, evs.take(k)), input, evs.skip(k)),
    decreases k,
{
    if k == 0 {
        assert(evs.take(0) =~= Seq::<EventSpec>::empty());
        assert(evs.skip(0) =~= evs);
    } else {
        let s1 = next_state(s, input, evs[0]);
        lemma_run_split(s1, input, evs.skip(1), k - 1);
        assert(evs.skip(1).take(k - 1) =~= evs.take(k).skip(1));
        assert(evs.skip(1).skip(k - 1) =~= evs.skip(k));
        assert(evs.take(k)[0] == evs[0]);
    }
}

/// Helper: once the machine has left the input-checking state in any
/// way other than the input failure, no later event can produce that
/// failure.
pub proof fn lemma_no_late_input_failure(s: StateSpec, input: Seq<char>, evs: Seq<EventSpec>)
    requires
        s != StateSpec::CheckingInput,
        !(s matches StateSpec::Failed(f) && f matches ErrorSpec::InputNotFound(_)),
    ensures
        !(run(s, input, evs) matches StateSpec::Failed(f) && f matches ErrorSpec::InputNotFound(_)),
    decreases evs.len(),
{
    if evs.len() > 0 {
        lemma_no_late_input_failure(next_state(s, input, evs[0]), input, evs.skip(1));
    }
}

/// Law: a conversion that ends failed with `InputNotFound` stood in
/// the input-checking state, or in that very failure, at every point
/// of its run: the directory-creating state is never reached, so a
/// missing input never has a directory created for it.
pub proof fn lemma_input_failure_precludes_directory(input: Seq<char>, evs: Seq<EventSpec>, k: int)
    requires
        run(StateSpec::CheckingInput, input, evs) matches StateSpec::Failed(f)
            && f matches ErrorSpec::InputNotFound(_),
        0 <= k <= evs.len(),
    ensures
        run(StateSpec::CheckingInput, input, evs.take(k)) == StateSpec::CheckingInput
            || run(StateSpec::CheckingInput, input, evs.take(k)) == StateSpec::Failed(
            ErrorSpec::InputNotFound(input),
        ),
    decreases k,
{
    if k > 0 {
        lemma_input_failure_precludes_directory(input, evs, k - 1);
        let sk1 = run(StateSpec::CheckingInput, input, evs.take(k - 1));
        let sk = run(StateSpec::CheckingInput, input, evs.take(k));
        assert(sk == next_state(sk1, input, evs[k - 1])) by {
            lemma_run_split(StateSpec::CheckingInput, input, evs.take(k), k - 1);
            assert(evs.take(k).take(k - 1) =~= evs.take(k - 1));
            let one = evs.take(k).skip(k - 1);
            assert(one =~= seq![evs[k - 1]]);
            assert(one.skip(1) =~= Seq::<EventSpec>::empty());
            assert(run(sk1, input, one) == run(next_state(sk1, input, one[0]), input, one.skip(1)));
        }
        if sk1 == StateSpec::CheckingInput && sk == StateSpec::CreatingDirectory {
            lemma_run_split(StateSpec::CheckingInput, input, evs, k);
            lemma_no_late_input_failure(sk, input, evs.skip(k));
        }
    } else {
        assert(evs.take(0) =~= Seq::<EventSpec>::empty());
    }
}

/// Law: a non-zero transcoder exit fails the conversion with exactly
/// the captured diagnostic text; in particular the diagnostic of the
/// failure is non-empty whenever the process wrote to its error
/// stream.
pub proof fn lemma_exit_failure_diagnostic(input: Seq<char>, d: Seq<char>)
    ensures
        next_state(StateSpec::RunningTranscoder, input, EventSpec::TranscoderExited(false, d))
            == StateSpec::Failed(ErrorSpec::TranscoderExitFailure(d)),
        next_state(StateSpec::RunningTranscoder, input, EventSpec::TranscoderExited(true, d))
            == StateSpec::Ready,
{
}

} // verus!
