//! Fragment tracing: what passes a state machine, split into the lines and
//! literals of IMAP framing, for the operator to read.
//!
//! The splitting is done by `imap_codec`'s `Fragmentizer`. This module feeds
//! it, takes out every fragment that is complete, and describes each one,
//! with its bytes as they are and in a form that can be printed.

use imap_codec::fragmentizer::{FragmentInfo, Fragmentizer};
use vstd::prelude::*;

verus! {

/// `imap_codec::fragmentizer::Fragmentizer`. Nothing is known of what it
/// holds but what the functions below say of it.
#[verifier::external_type_specification]
#[verifier::external_body]
pub struct ExFragmentizer(Fragmentizer);

/// A fragment as the fragmentizer announces it: its kind, and its place in
/// the message it belongs to.
#[derive(Clone, Copy, Debug, PartialEq, Eq, Structural)]
pub struct Fragment {
    /// A line if true, a literal if not.
    pub line: bool,
    /// First index of the fragment in its message.
    pub start: usize,
    /// Index after the last one.
    pub end: usize,
}

/// The fragments that `progress` hands out, one by one, before it next asks
/// for more input.
pub uninterp spec fn pending(fragmentizer: Fragmentizer) -> Seq<Fragment>;

/// The fragmentizer after one more call of `progress`.
pub uninterp spec fn after_progress(fragmentizer: Fragmentizer) -> Fragmentizer;

/// The fragmentizer after `bytes` were enqueued.
pub uninterp spec fn after_enqueue(fragmentizer: Fragmentizer, bytes: Seq<u8>) -> Fragmentizer;

/// The bytes of the current message, as far as the fragmentizer holds them.
pub uninterp spec fn message(fragmentizer: Fragmentizer) -> Seq<u8>;

/// Whether the current message has outgrown the size limit.
pub uninterp spec fn exceeded(fragmentizer: Fragmentizer) -> bool;

/// The size limit that the fragmentizer was made with, if it has one.
pub uninterp spec fn limit(fragmentizer: Fragmentizer) -> Option<u32>;

/// `Fragmentizer::new`: a fragmentizer that keeps at most `max_message_size`
/// bytes of a message. It holds no input, so it has nothing to hand out.
#[verifier::external_body]
fn new_fragmentizer(max_message_size: u32) -> (fragmentizer: Fragmentizer)
    ensures
        pending(fragmentizer).len() == 0,
        limit(fragmentizer) == Some(max_message_size),
{
    Fragmentizer::new(max_message_size)
}

/// `Fragmentizer::without_max_message_size`: a fragmentizer that keeps every
/// byte. It holds no input, so it has nothing to hand out.
#[verifier::external_body]
fn new_unbounded_fragmentizer() -> (fragmentizer: Fragmentizer)
    ensures
        pending(fragmentizer).len() == 0,
        limit(fragmentizer) is None,
{
    Fragmentizer::without_max_message_size()
}

/// `Fragmentizer::enqueue_bytes`, which appends `bytes` to the input that
/// is not split yet, and leaves the size limit as it is.
#[verifier::external_body]
fn enqueue_bytes(fragmentizer: &mut Fragmentizer, bytes: &[u8])
    ensures
        *final(fragmentizer) == after_enqueue(*old(fragmentizer), bytes@),
        limit(*final(fragmentizer)) == limit(*old(fragmentizer)),
{
    fragmentizer.enqueue_bytes(bytes)
}

/// `Fragmentizer::progress`, which hands out the next complete fragment, or
/// nothing once the input holds none; a fragment never ends before it
/// starts, and the size limit stays as it is.
#[verifier::external_body]
fn progress(fragmentizer: &mut Fragmentizer) -> (fragment: Option<Fragment>)
    ensures
        *final(fragmentizer) == after_progress(*old(fragmentizer)),
        limit(*final(fragmentizer)) == limit(*old(fragmentizer)),
        fragment is None <==> pending(*old(fragmentizer)).len() == 0,
        fragment is None ==> pending(*final(fragmentizer)).len() == 0,
        fragment matches Some(found) ==> {
            &&& found == pending(*old(fragmentizer))[0]
            &&& found.start <= found.end
            &&& pending(*final(fragmentizer)) == pending(*old(fragmentizer)).drop_first()
        },
{
    match fragmentizer.progress() {
        Some(FragmentInfo::Line { start, end, .. }) => Some(Fragment { line: true, start, end }),
        Some(FragmentInfo::Literal { start, end }) => Some(Fragment { line: false, start, end }),
        None => None,
    }
}

/// The part of the current message that a fragment covers; where the
/// message was cut short, as much of it as is held.
pub open spec fn covered(held: Seq<u8>, fragment: Fragment) -> Seq<u8> {
    let start = if fragment.start <= held.len() {
        fragment.start as int
    } else {
        held.len() as int
    };
    let end = if fragment.end <= held.len() {
        fragment.end as int
    } else {
        held.len() as int
    };
    held.subrange(start, end)
}

/// `Fragmentizer::fragment_bytes`, which reads only the range of the
/// fragment it is given and returns that part of the current message.
#[verifier::external_body]
fn fragment_bytes(fragmentizer: &Fragmentizer, fragment: Fragment) -> (bytes: Vec<u8>)
    requires
        fragment.start <= fragment.end,
    ensures
        bytes@ == covered(message(*fragmentizer), fragment),
{
    let info = FragmentInfo::Literal { start: fragment.start, end: fragment.end };
    fragmentizer.fragment_bytes(info).to_vec()
}

/// `Fragmentizer::is_max_message_size_exceeded`. A fragmentizer that was
/// made without a size limit never says that a message has outgrown it.
#[verifier::external_body]
fn is_max_message_size_exceeded(fragmentizer: &Fragmentizer) -> (over: bool)
    ensures
        over == exceeded(*fragmentizer),
        limit(*fragmentizer) is None ==> !over,
{
    fragmentizer.is_max_message_size_exceeded()
}

/// The lower-case hexadecimal digit for `d`.
pub open spec fn hex_digit(d: int) -> char {
    if d < 10 {
        (0x30 + d) as u8 as char
    } else {
        (0x57 + d) as u8 as char
    }
}

/// How one byte is shown: printable ASCII as it is, but for the double
/// quote and the backslash, which get a backslash in front; tab, line feed
/// and carriage return as `\t`, `\n`, `\r`; any other byte as `\x` and
/// two hexadecimal digits.
pub open spec fn escaped_byte(b: u8) -> Seq<char> {
    if b == 0x09 {
        seq!['\\', 't']
    } else if b == 0x0a {
        seq!['\\', 'n']
    } else if b == 0x0d {
        seq!['\\', 'r']
    } else if b == 0x22 {
        seq!['\\', '"']
    } else if b == 0x5c {
        seq!['\\', '\\']
    } else if 0x20 <= b <= 0x7e {
        seq![b as char]
    } else {
        seq!['\\', 'x', hex_digit(b as int / 16), hex_digit(b as int % 16)]
    }
}

/// How bytes are shown: byte by byte.
pub open spec fn escaped(bytes: Seq<u8>) -> Seq<char>
    decreases bytes.len(),
{
    if bytes.len() == 0 {
        Seq::empty()
    } else {
        escaped(bytes.drop_last()) + escaped_byte(bytes.last())
    }
}

/// `imap_types::utils::escape_byte_string`, which writes every byte in a
/// form that can be printed, one after the other.
#[verifier::external_body]
fn escape_byte_string(bytes: &[u8]) -> (text: String)
    ensures
        text@ == escaped(bytes@),
{
    imap_codec::imap_types::utils::escape_byte_string(bytes)
}

/// The colour in which a fragment is shown.
#[derive(Clone, Copy, Debug, PartialEq, Eq, Structural)]
pub enum Color {
    Blue,
    Red,
}

/// A line or a literal.
#[derive(Clone, Copy, Debug, PartialEq, Eq, Structural)]
pub enum FragmentKind {
    Line,
    Literal,
}

/// One fragment that passed, as it is shown to the operator.
#[derive(Clone, Debug, PartialEq, Eq)]
pub struct FragmentEvent {
    /// Which side of the proxy the fragment passed, e.g. `c2p`.
    pub role: &'static str,
    /// An arrow for the direction, e.g. `|-->`.
    pub direction: &'static str,
    /// The colour of the side, for input.
    pub color: Option<Color>,
    pub kind: FragmentKind,
    /// The bytes of the fragment.
    pub bytes: Vec<u8>,
    /// The bytes of the fragment in a form that can be printed.
    pub escaped: String,
    /// Whether the message of the fragment has outgrown the size limit.
    pub exceeded: bool,
}

pub struct FragmentEventView {
    pub role: Seq<char>,
    pub direction: Seq<char>,
    pub color: Option<Color>,
    pub kind: FragmentKind,
    pub bytes: Seq<u8>,
    pub escaped: Seq<char>,
    pub exceeded: bool,
}

impl View for FragmentEvent {
    type V = FragmentEventView;

    open spec fn view(&self) -> FragmentEventView {
        FragmentEventView {
            role: self.role@,
            direction: self.direction@,
            color: self.color,
            kind: self.kind,
            bytes: self.bytes@,
            escaped: self.escaped@,
            exceeded: self.exceeded,
        }
    }
}

/// The views of a list of fragment events.
pub open spec fn events_view(events: Seq<FragmentEvent>) -> Seq<FragmentEventView> {
    events.map_values(|event: FragmentEvent| event@)
}

/// How the fragments of one direction are labelled.
#[derive(Clone, Copy, Debug, PartialEq, Eq)]
pub struct Label {
    pub role: &'static str,
    pub direction: &'static str,
    pub color: Option<Color>,
}

pub struct LabelView {
    pub role: Seq<char>,
    pub direction: Seq<char>,
    pub color: Option<Color>,
}

impl View for Label {
    type V = LabelView;

    open spec fn view(&self) -> LabelView {
        LabelView { role: self.role@, direction: self.direction@, color: self.color }
    }
}

/// The event for `fragment`, which `fragmentizer` has just handed out.
pub open spec fn fragment_event(
    label: LabelView,
    fragmentizer: Fragmentizer,
    fragment: Fragment,
) -> FragmentEventView {
    FragmentEventView {
        role: label.role,
        direction: label.direction,
        color: label.color,
        kind: if fragment.line {
            FragmentKind::Line
        } else {
            FragmentKind::Literal
        },
        bytes: covered(message(fragmentizer), fragment),
        escaped: escaped(covered(message(fragmentizer), fragment)),
        exceeded: exceeded(fragmentizer),
    }
}

/// The events for the next `count` fragments of `fragmentizer`, each
/// described as the fragmentizer stands when it has handed it out.
pub open spec fn drained(label: LabelView, fragmentizer: Fragmentizer, count: nat) -> Seq<
    FragmentEventView,
>
    decreases count,
{
    if count == 0 {
        Seq::empty()
    } else {
        let next = after_progress(fragmentizer);
        seq![fragment_event(label, next, pending(fragmentizer)[0])] + drained(
            label,
            next,
            (count - 1) as nat,
        )
    }
}

/// The fragmentizer after it handed out `count` fragments and was then
/// asked once more.
pub open spec fn settled(fragmentizer: Fragmentizer, count: nat) -> Fragmentizer
    decreases count,
{
    if count == 0 {
        after_progress(fragmentizer)
    } else {
        settled(after_progress(fragmentizer), (count - 1) as nat)
    }
}

/// The events for all that `fragmentizer` has to hand out once `bytes` are
/// enqueued.
pub open spec fn traced(label: LabelView, fragmentizer: Fragmentizer, bytes: Seq<u8>) -> Seq<
    FragmentEventView,
> {
    let fed = after_enqueue(fragmentizer, bytes);
    drained(label, fed, pending(fed).len())
}

/// The fragmentizer after `bytes` were enqueued and all fragments taken out.
pub open spec fn fed_and_settled(fragmentizer: Fragmentizer, bytes: Seq<u8>) -> Fragmentizer {
    let fed = after_enqueue(fragmentizer, bytes);
    settled(fed, pending(fed).len())
}

/// Whether no event says that its message has outgrown the size limit.
pub open spec fn none_exceeded(events: Seq<FragmentEvent>) -> bool {
    forall|i: int| 0 <= i < events.len() ==> !(#[trigger] events[i]).exceeded
}

/// Describes a fragment that `fragmentizer` has just handed out.
fn handle_fragment_event(
    role: &'static str,
    direction: &'static str,
    color: Option<Color>,
    fragmentizer: &Fragmentizer,
    fragment: Fragment,
) -> (event: FragmentEvent)
    requires
        fragment.start <= fragment.end,
    ensures
        event@ == fragment_event(
            LabelView { role: role@, direction: direction@, color },
            *fragmentizer,
            fragment,
        ),
        limit(*fragmentizer) is None ==> !event.exceeded,
{
    let kind = if fragment.line {
        FragmentKind::Line
    } else {
        FragmentKind::Literal
    };
    let bytes = fragment_bytes(fragmentizer, fragment);
    let escaped = escape_byte_string(bytes.as_slice());
    FragmentEvent {
        role,
        direction,
        color,
        kind,
        bytes,
        escaped,
        exceeded: is_max_message_size_exceeded(fragmentizer),
    }
}

/// Enqueues `bytes` and takes out every fragment that is complete.
fn trace(label: Label, fragmentizer: &mut Fragmentizer, bytes: &[u8]) -> (events: Vec<
    FragmentEvent,
>)
    ensures
        events_view(events@) == traced(label@, *old(fragmentizer), bytes@),
        *final(fragmentizer) == fed_and_settled(*old(fragmentizer), bytes@),
        pending(*final(fragmentizer)).len() == 0,
        limit(*final(fragmentizer)) == limit(*old(fragmentizer)),
        limit(*old(fragmentizer)) is None ==> none_exceeded(events@),
{
    enqueue_bytes(fragmentizer, bytes);
    let ghost fed = *fragmentizer;
    let ghost total = pending(fed).len();
    let mut events: Vec<FragmentEvent> = Vec::new();
    assert(events_view(events@) =~= Seq::<FragmentEventView>::empty());
    loop
        invariant_except_break
            drained(label@, fed, total) == events_view(events@) + drained(
                label@,
                *fragmentizer,
                pending(*fragmentizer).len(),
            ),
            settled(fed, total) == settled(*fragmentizer, pending(*fragmentizer).len()),
        invariant
            limit(*fragmentizer) == limit(fed),
            limit(fed) is None ==> none_exceeded(events@),
        ensures
            drained(label@, fed, total) == events_view(events@),
            settled(fed, total) == *fragmentizer,
            pending(*fragmentizer).len() == 0,
        decreases pending(*fragmentizer).len(),
    {
        let ghost before = *fragmentizer;
        let ghost done = events_view(events@);
        match progress(fragmentizer) {
            Some(fragment) => {
                let event = handle_fragment_event(
                    label.role,
                    label.direction,
                    label.color,
                    fragmentizer,
                    fragment,
                );
                events.push(event);
                proof {
                    let rest = drained(label@, *fragmentizer, pending(*fragmentizer).len());
                    assert(pending(before).len() - 1 == pending(*fragmentizer).len());
                    assert(drained(label@, before, pending(before).len()) == seq![event@] + rest);
                    assert(events_view(events@) =~= done.push(event@));
                    assert(done + (seq![event@] + rest) =~= done.push(event@) + rest);
                }
            },
            None => {
                proof {
                    assert(drained(label@, before, 0) =~= Seq::<FragmentEventView>::empty());
                    assert(done + Seq::<FragmentEventView>::empty() =~= done);
                }
                break ;
            },
        }
    }
    events
}

/// What a state machine needs from its driver before it can go on.
#[derive(Clone, Debug, PartialEq, Eq)]
pub enum Io {
    /// More bytes must be read and enqueued.
    NeedMoreInput,
    /// These bytes must be written.
    Output(Vec<u8>),
}

/// Why a state machine stopped short of its next event.
#[derive(Clone, Debug, PartialEq, Eq)]
pub enum Interrupt<E> {
    Io(Io),
    Error(E),
}

/// The bytes that a report hands to the driver for writing, if it does.
pub open spec fn output_of<V, E>(report: Result<V, Interrupt<E>>) -> Option<Seq<u8>> {
    match report {
        Err(Interrupt::Io(Io::Output(output))) => Some(output@),
        _ => None,
    }
}

/// The tracing of what a state machine writes. It has no size limit.
struct OutputTrace {
    role: &'static str,
    direction: &'static str,
    fragmentizer: Fragmentizer,
}

impl OutputTrace {
    #[verifier::type_invariant]
    spec fn unbounded(self) -> bool {
        limit(self.fragmentizer) is None
    }

    /// Enqueues `bytes` and takes out every fragment that is complete.
    fn trace(&mut self, bytes: &[u8]) -> (events: Vec<FragmentEvent>)
        ensures
            events_view(events@) == traced(
                LabelView { role: old(self).role@, direction: old(self).direction@, color: None },
                old(self).fragmentizer,
                bytes@,
            ),
            final(self).fragmentizer == fed_and_settled(old(self).fragmentizer, bytes@),
            pending(final(self).fragmentizer).len() == 0,
            limit(final(self).fragmentizer) == limit(old(self).fragmentizer),
            final(self).role == old(self).role,
            final(self).direction == old(self).direction,
            none_exceeded(events@),
    {
        proof {
            use_type_invariant(&*self);
        }
        let label = Label { role: self.role, direction: self.direction, color: None };
        // The fragmentizer is worked on outside the trace, which holds an
        // empty one meanwhile.
        let mut fragmentizer = new_unbounded_fragmentizer();
        std::mem::swap(&mut self.fragmentizer, &mut fragmentizer);
        let events = trace(label, &mut fragmentizer, bytes);
        std::mem::swap(&mut self.fragmentizer, &mut fragmentizer);
        events
    }
}

/// A state machine together with the tracing of what it reads and writes.
pub struct FragmentTracker<S> {
    input_role: &'static str,
    input_direction: &'static str,
    input_color: Color,
    input_fragmentizer: Fragmentizer,
    output: OutputTrace,
    state: S,
}

impl<S> FragmentTracker<S> {
    /// How fragments of the input are labelled.
    pub closed spec fn input_label(&self) -> LabelView {
        LabelView {
            role: self.input_role@,
            direction: self.input_direction@,
            color: Some(self.input_color),
        }
    }

    /// How fragments of the output are labelled.
    pub closed spec fn output_label(&self) -> LabelView {
        LabelView { role: self.output.role@, direction: self.output.direction@, color: None }
    }

    /// The fragmentizer of the input.
    pub closed spec fn input(&self) -> Fragmentizer {
        self.input_fragmentizer
    }

    /// The fragmentizer of the output.
    pub closed spec fn output(&self) -> Fragmentizer {
        self.output.fragmentizer
    }

    /// The state machine.
    pub closed spec fn spec_state(&self) -> S {
        self.state
    }

    /// Tracks the server-facing machine `state`, which plays the client: its
    /// input comes from the server, at most `max_input_size` bytes a message.
    pub fn client(state: S, max_input_size: u32) -> (tracker: FragmentTracker<S>)
        ensures
            tracker.input_label() == (LabelView {
                role: "s2p"@,
                direction: "<--|"@,
                color: Some(Color::Blue),
            }),
            tracker.output_label() == (LabelView {
                role: "p2s"@,
                direction: "--->"@,
                color: None,
            }),
            pending(tracker.input()).len() == 0,
            pending(tracker.output()).len() == 0,
            limit(tracker.input()) == Some(max_input_size),
            limit(tracker.output()) is None,
            tracker.spec_state() == state,
    {
        FragmentTracker {
            input_role: "s2p",
            input_direction: "<--|",
            input_color: Color::Blue,
            input_fragmentizer: new_fragmentizer(max_input_size),
            output: OutputTrace {
                role: "p2s",
                direction: "--->",
                fragmentizer: new_unbounded_fragmentizer(),
            },
            state,
        }
    }

    /// Tracks the client-facing machine `state`, which plays the server: its
    /// input comes from the client, at most `max_input_size` bytes a message.
    pub fn server(state: S, max_input_size: u32) -> (tracker: FragmentTracker<S>)
        ensures
            tracker.input_label() == (LabelView {
                role: "c2p"@,
                direction: "|-->"@,
                color: Some(Color::Red),
            }),
            tracker.output_label() == (LabelView {
                role: "p2c"@,
                direction: "<---"@,
                color: None,
            }),
            pending(tracker.input()).len() == 0,
            pending(tracker.output()).len() == 0,
            limit(tracker.input()) == Some(max_input_size),
            limit(tracker.output()) is None,
            tracker.spec_state() == state,
    {
        FragmentTracker {
            input_role: "c2p",
            input_direction: "|-->",
            input_color: Color::Red,
            input_fragmentizer: new_fragmentizer(max_input_size),
            output: OutputTrace {
                role: "p2c",
                direction: "<---",
                fragmentizer: new_unbounded_fragmentizer(),
            },
            state,
        }
    }

    pub fn state(&self) -> (state: &S)
        ensures
            *state == self.spec_state(),
    {
        &self.state
    }

    /// The state machine, to act on it. The tracing is left as it is.
    pub fn state_mut(&mut self) -> (state: &mut S)
        ensures
            *state == old(self).spec_state(),
            final(self).spec_state() == *final(state),
            final(self).input() == old(self).input(),
            final(self).output() == old(self).output(),
            final(self).input_label() == old(self).input_label(),
            final(self).output_label() == old(self).output_label(),
    {
        &mut self.state
    }

    /// Traces the bytes that are about to be enqueued as input of the state
    /// machine: the fragments that they complete, in their order.
    pub fn enqueue_input(&mut self, bytes: &[u8]) -> (events: Vec<FragmentEvent>)
        ensures
            events_view(events@) == traced(old(self).input_label(), old(self).input(), bytes@),
            final(self).input() == fed_and_settled(old(self).input(), bytes@),
            pending(final(self).input()).len() == 0,
            limit(final(self).input()) == limit(old(self).input()),
            final(self).output() == old(self).output(),
            final(self).spec_state() == old(self).spec_state(),
            final(self).input_label() == old(self).input_label(),
            final(self).output_label() == old(self).output_label(),
    {
        let label = Label {
            role: self.input_role,
            direction: self.input_direction,
            color: Some(self.input_color),
        };
        trace(label, &mut self.input_fragmentizer, bytes)
    }

    /// Takes what the state machine reported and hands it on as it is.
    /// Where the report holds bytes to write, they are traced as output.
    pub fn next<V, E>(&mut self, report: Result<V, Interrupt<E>>) -> (out: (
        Result<V, Interrupt<E>>,
        Vec<FragmentEvent>,
    ))
        ensures
            out.0 == report,
            match output_of(report) {
                Some(output) => {
                    &&& events_view(out.1@) == traced(
                        old(self).output_label(),
                        old(self).output(),
                        output,
                    )
                    &&& final(self).output() == fed_and_settled(old(self).output(), output)
                    &&& pending(final(self).output()).len() == 0
                    &&& limit(final(self).output()) == limit(old(self).output())
                },
                None => out.1@.len() == 0 && final(self).output() == old(self).output(),
            },
            none_exceeded(out.1@),
            final(self).input() == old(self).input(),
            final(self).spec_state() == old(self).spec_state(),
            final(self).input_label() == old(self).input_label(),
            final(self).output_label() == old(self).output_label(),
    {
        let events = match &report {
            Err(Interrupt::Io(Io::Output(output))) => {
                self.output.trace(output.as_slice())
            },
            _ => Vec::new(),
        };
        (report, events)
    }
}

} // verus!
