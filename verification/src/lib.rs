/*!
A terminal spinner library: an animated progress indicator on a single
terminal line — a short message prefixed by a cycling glyph sequence —
updated in place until a terminating call replaces it with a final status
line.

A [`Spinner`] handle is backed by exactly one animation loop at a time. The
loop's per-tick behaviour lives in [`AnimationLoop`]: each tick renders the
next frame over the previous one through the line renderer in [`render`],
and a final erase leaves the line clean. Termination methods print a status
line to the handle's stream; `update`-style methods replace the running
loop's content, restarting the cycle at frame 0, with one clean erase in
between.

The embedding runtime drives an [`AnimationLoop`] on a task of its own:
construction hands it the loop of the handle's current generation, an update
retires that generation and hands out the next, and the runtime joins the
old loop before it starts the new one.
*/

use vstd::prelude::*;
use vstd::utf8::encode_utf8;

pub mod render;
pub mod spinners;
pub mod streams;
pub mod term;
pub mod utils;

pub use spinners::SpinnerFrames;
pub use streams::Streams;
pub use utils::Color;

use render::erase_bytes;
use render::render;
use render::render_bytes;
use utils::colorize;
use utils::escape_free;
use utils::wraps;

verus! {

/// The state of one animation loop: the frames to cycle through (already
/// painted in the spinner's color), the message drawn after each frame, the
/// cadence, and the renderer's per-tick state — which frame comes next and
/// how many bytes the last tick drew.
pub struct AnimationLoop {
    painted: Vec<String>,
    msg: String,
    interval: u32,
    stream: Streams,
    generation: u64,
    index: usize,
    last_length: usize,
}

impl AnimationLoop {
    /// The painted frames as sequences of characters.
    pub closed spec fn painted_view(&self) -> Seq<Seq<char>> {
        self.painted@.map_values(|s: String| s@)
    }

    /// The message drawn after each frame.
    pub closed spec fn msg_view(&self) -> Seq<char> {
        self.msg@
    }

    /// The inter-frame interval, in milliseconds.
    pub closed spec fn interval_view(&self) -> u32 {
        self.interval
    }

    /// The stream the loop's output is meant for.
    pub closed spec fn stream_view(&self) -> Streams {
        self.stream
    }

    /// The generation of the handle that spawned this loop.
    pub closed spec fn generation_view(&self) -> u64 {
        self.generation
    }

    /// The index of the frame the next tick draws.
    pub closed spec fn index_view(&self) -> nat {
        self.index as nat
    }

    /// The byte length of the last drawn line, blanked by the next tick.
    pub closed spec fn last_length_view(&self) -> nat {
        self.last_length as nat
    }

    /// A well-formed loop: at least one frame, the next-frame index within
    /// bounds, and a positive interval.
    pub closed spec fn wf(&self) -> bool {
        &&& self.painted@.len() > 0
        &&& self.index < self.painted@.len()
        &&& self.interval >= 1
    }

    /// The line the next tick draws: the painted frame, a space, and the
    /// message.
    pub open spec fn frame_line(&self) -> Seq<char> {
        self.painted_view()[self.index_view() as int] + seq![' '] + self.msg_view()
    }

    /// The bytes of the line the next tick draws.
    pub open spec fn frame_line_bytes(&self) -> Seq<u8> {
        encode_utf8(self.frame_line())
    }

    /// Well-formedness, as exec code can ask it.
    pub fn is_wf(&self) -> (r: bool)
        ensures
            r == self.wf(),
    {
        self.painted.len() > 0 && self.index < self.painted.len() && self.interval >= 1
    }

    /// The inter-frame interval in milliseconds, for the runtime's sleep.
    pub fn interval_ms(&self) -> (r: u32)
        ensures
            r == self.interval_view(),
    {
        self.interval
    }

    /// The stream the loop's output is meant for.
    pub fn stream(&self) -> (r: Streams)
        ensures
            r == self.stream_view(),
    {
        self.stream
    }

    /// The generation of the handle that spawned this loop.
    pub fn generation(&self) -> (r: u64)
        ensures
            r == self.generation_view(),
    {
        self.generation
    }

    /// One animation tick: renders the next frame's line over the previous
    /// one and returns the bytes to write. The frame index advances
    /// cyclically; the drawn line's byte length is recorded so the next tick
    /// can blank it in full.
    pub fn tick(&mut self) -> (out: Vec<u8>)
        requires
            old(self).wf(),
        ensures
            final(self).wf(),
            out@ == render_bytes(old(self).last_length_view(), old(self).frame_line_bytes()),
            final(self).last_length_view() == old(self).frame_line_bytes().len(),
            final(self).index_view() == (old(self).index_view() + 1) % old(
                self,
            ).painted_view().len(),
            final(self).painted_view() == old(self).painted_view(),
            final(self).msg_view() == old(self).msg_view(),
            final(self).interval_view() == old(self).interval_view(),
            final(self).stream_view() == old(self).stream_view(),
            final(self).generation_view() == old(self).generation_view(),
    {
        let mut line = self.painted[self.index].clone();
        line.append(" ");
        line.append(self.msg.as_str());
        proof {
            reveal_strlit(" ");
            assert(" "@ =~= seq![' ']);
            assert(line@ == self.frame_line());
        }
        let rendered = render(self.last_length, line.as_str());
        self.last_length = rendered.1;
        let frame_count = self.painted.len();
        self.index = (self.index + 1) % frame_count;
        rendered.0
    }

    /// Draws one tick to the loop's stream and flushes: the whole per-frame
    /// write of the animation task, apart from the sleep and the
    /// cancellation poll.
    pub fn draw_tick(&mut self)
        requires
            old(self).wf(),
        ensures
            final(self).wf(),
            final(self).last_length_view() == old(self).frame_line_bytes().len(),
            final(self).index_view() == (old(self).index_view() + 1) % old(
                self,
            ).painted_view().len(),
            final(self).painted_view() == old(self).painted_view(),
            final(self).msg_view() == old(self).msg_view(),
            final(self).interval_view() == old(self).interval_view(),
            final(self).stream_view() == old(self).stream_view(),
            final(self).generation_view() == old(self).generation_view(),
    {
        let out = self.tick();
        let stream = self.stream;
        stream.write_bytes(out.as_slice());
        stream.flush();
    }

    /// The loop's final act on cancellation: the bytes that erase the last
    /// drawn line, leaving the terminal line clean. Consuming the loop here
    /// guarantees no write of this generation can follow the erase.
    pub fn finish(self) -> (out: Vec<u8>)
        ensures
            out@ == erase_bytes(self.last_length_view()),
    {
        render::erase_sequence(self.last_length)
    }

    /// Erases the last drawn line on the loop's stream, flushes, and
    /// consumes the loop: the single erase-write after cancellation, with
    /// nothing of this generation after it.
    pub fn retire(self) {
        let stream = self.stream;
        let out = self.finish();
        stream.write_bytes(out.as_slice());
        stream.flush();
    }
}

/// Terminal spinner: the public state machine. A handle is backed by exactly
/// one live animation loop — the loop of its current generation — from
/// construction until a terminating call consumes the handle; update calls
/// retire the running loop and hand out the next generation's.
pub struct Spinner {
    frames: SpinnerFrames,
    msg: String,
    color: Option<Color>,
    stream: Streams,
    generation: u64,
}

impl Spinner {
    /// The frames of the active frame set.
    pub closed spec fn frames_view(&self) -> Seq<Seq<char>> {
        self.frames.frames_view()
    }

    /// The inter-frame interval of the active frame set, in milliseconds.
    pub closed spec fn interval_view(&self) -> u32 {
        self.frames.interval
    }

    /// The current text payload.
    pub closed spec fn msg_view(&self) -> Seq<char> {
        self.msg@
    }

    /// The configured color.
    pub closed spec fn color_view(&self) -> Option<Color> {
        self.color
    }

    /// The configured output stream.
    pub closed spec fn stream_view(&self) -> Streams {
        self.stream
    }

    /// How many animation loops this handle has spawned; the loop of this
    /// generation is the one the handle is backed by.
    pub closed spec fn generation_view(&self) -> u64 {
        self.generation
    }

    /// A well-formed handle: a well-formed frame set and at least one spawned
    /// generation.
    pub closed spec fn wf(&self) -> bool {
        &&& self.frames.wf()
        &&& self.generation >= 1
    }

    /// The handle's current generation: how many animation loops it has
    /// spawned so far.
    pub fn generation(&self) -> (r: u64)
        ensures
            r == self.generation_view(),
    {
        self.generation
    }

    /// What a well-formed handle guarantees of its parts.
    pub proof fn lemma_wf_facts(&self)
        requires
            self.wf(),
        ensures
            self.frames_view().len() > 0,
            forall|i: int| 0 <= i < self.frames_view().len() ==> self.frames_view()[i].len() > 0,
            self.interval_view() >= 1,
            self.generation_view() >= 1,
    {
    }

    /// Creates a new spinner on the standard output stream and spawns its
    /// first animation loop (generation 1). The frame set must be
    /// well-formed: at least one non-empty frame and a positive interval.
    pub fn new(frames: SpinnerFrames, msg: &str, color: Option<Color>) -> (r: Spinner)
        requires
            frames.wf(),
        ensures
            r.wf(),
            r.frames_view() == frames.frames_view(),
            r.interval_view() == frames.interval,
            r.msg_view() == msg@,
            r.color_view() == color,
            r.stream_view() == Streams::Stdout,
            r.generation_view() == 1,
    {
        Self::new_with_stream(frames, msg, color, Streams::default())
    }

    /// Creates a new spinner outputting to the given stream and spawns its
    /// first animation loop (generation 1).
    pub fn new_with_stream(
        frames: SpinnerFrames,
        msg: &str,
        color: Option<Color>,
        stream: Streams,
    ) -> (r: Spinner)
        requires
            frames.wf(),
        ensures
            r.wf(),
            r.frames_view() == frames.frames_view(),
            r.interval_view() == frames.interval,
            r.msg_view() == msg@,
            r.color_view() == color,
            r.stream_view() == stream,
            r.generation_view() == 1,
    {
        Spinner { frames, msg: String::from_str(msg), color, stream, generation: 1 }
    }

    /// True when `a` is the loop this handle hands out for its current
    /// state: current generation, current message and cadence, and the
    /// renderer state of a fresh start — the cycle begins at frame 0 with
    /// nothing yet drawn.
    pub open spec fn spawns(&self, a: &AnimationLoop) -> bool {
        &&& a.generation_view() == self.generation_view()
        &&& a.msg_view() == self.msg_view()
        &&& a.interval_view() == self.interval_view()
        &&& a.stream_view() == self.stream_view()
        &&& a.painted_view().len() == self.frames_view().len()
        &&& a.index_view() == 0
        &&& a.last_length_view() == 0
    }

    /// The animation loop of the handle's current generation: the frames
    /// painted in the handle's color, the current message, a fresh cycle
    /// starting at frame 0. The runtime runs it on a task of its own.
    pub fn animation(&self) -> (a: AnimationLoop)
        requires
            self.wf(),
        ensures
            a.wf(),
            self.spawns(&a),
            self.color_view() is None ==> a.painted_view() == self.frames_view(),
            forall|i: int|
                0 <= i < self.frames_view().len() && escape_free(#[trigger] self.frames_view()[i])
                    ==> wraps(a.painted_view()[i], self.frames_view()[i]),
    {
        let mut painted: Vec<String> = Vec::new();
        let mut i: usize = 0;
        while i < self.frames.frames.len()
            invariant
                i <= self.frames.frames@.len(),
                painted@.len() == i,
                forall|j: int|
                    0 <= j < i ==> (self.color is None ==> #[trigger] painted@[j]@
                        == self.frames.frames@[j]@),
                forall|j: int|
                    0 <= j < i && escape_free(#[trigger] self.frames.frames@[j]@) ==> wraps(
                        painted@[j]@,
                        self.frames.frames@[j]@,
                    ),
            decreases self.frames.frames@.len() - i,
        {
            painted.push(colorize(self.color, self.frames.frames[i].as_str()));
            i = i + 1;
        }
        let a = AnimationLoop {
            painted,
            msg: self.msg.clone(),
            interval: self.frames.interval,
            stream: self.stream,
            generation: self.generation,
            index: 0,
            last_length: 0,
        };
        proof {
            if self.color_view() is None {
                assert(a.painted_view() =~= self.frames_view());
            }
        }
        a
    }

    /// Replaces the running spinner's content: retires the current loop's
    /// generation and moves the handle to the next one, with the new frame
    /// set, message and color on the same stream. The next loop the handle
    /// hands out starts its cycle at frame 0.
    pub fn update(&mut self, frames: SpinnerFrames, msg: &str, color: Option<Color>)
        requires
            old(self).wf(),
            frames.wf(),
            old(self).generation_view() < u64::MAX,
        ensures
            final(self).wf(),
            final(self).frames_view() == frames.frames_view(),
            final(self).interval_view() == frames.interval,
            final(self).msg_view() == msg@,
            final(self).color_view() == color,
            final(self).stream_view() == old(self).stream_view(),
            final(self).generation_view() == old(self).generation_view() + 1,
    {
        self.frames = frames;
        self.msg = String::from_str(msg);
        self.color = color;
        self.generation = self.generation + 1;
    }

    /// Replaces the running spinner's text; frame set and color are carried
    /// over unchanged. Retires the current loop's generation as `update`
    /// does.
    pub fn update_text(&mut self, msg: &str)
        requires
            old(self).wf(),
            old(self).generation_view() < u64::MAX,
        ensures
            final(self).wf(),
            final(self).frames_view() == old(self).frames_view(),
            final(self).interval_view() == old(self).interval_view(),
            final(self).msg_view() == msg@,
            final(self).color_view() == old(self).color_view(),
            final(self).stream_view() == old(self).stream_view(),
            final(self).generation_view() == old(self).generation_view() + 1,
    {
        self.msg = String::from_str(msg);
        self.generation = self.generation + 1;
    }

    /// The status line `stop` prints: the handle's message and a line
    /// terminator.
    pub fn stop_line(&self) -> (r: String)
        ensures
            r@ == self.msg_view() + seq!['\n'],
    {
        message_line(self.msg.as_str())
    }

    /// Stops the spinner, leaving its message visible on a line of its own.
    pub fn stop(self) {
        let line = self.stop_line();
        self.stream.write_fmt(line.as_str());
    }

    /// Stops the spinner and prints `msg` on a line of its own.
    pub fn stop_with_message(self, msg: &str) {
        let line = message_line(msg);
        self.stream.write_fmt(line.as_str());
    }

    /// Stops the spinner and prints a symbol and a message, unstyled.
    pub fn stop_and_persist(self, symbol: &str, msg: &str) {
        let line = persist_line(symbol, msg);
        self.stream.write_fmt(line.as_str());
    }

    /// Stops the spinner and prints a success symbol, colored green
    /// whatever the handle's configured color, and the message.
    pub fn success(self, msg: &str) {
        let line = badge_line(Color::Green, "✓", msg);
        self.stream.write_fmt(line.as_str());
    }

    /// Stops the spinner and prints a failure symbol, colored red whatever
    /// the handle's configured color, and the message, on the error stream.
    pub fn fail(self, msg: &str) {
        let line = badge_line(Color::Red, "✗", msg);
        Streams::Stderr.write_fmt(line.as_str());
    }

    /// Stops the spinner and prints a warning symbol, colored yellow
    /// whatever the handle's configured color, and the message.
    pub fn warn(self, msg: &str) {
        let line = badge_line(Color::Yellow, "⚠", msg);
        self.stream.write_fmt(line.as_str());
    }

    /// Stops the spinner and prints an info symbol, colored blue whatever
    /// the handle's configured color, and the message.
    pub fn info(self, msg: &str) {
        let line = badge_line(Color::Blue, "ℹ", msg);
        self.stream.write_fmt(line.as_str());
    }

    /// Stops the spinner without printing a status line; the animated line
    /// is erased by the retiring loop and nothing replaces it.
    pub fn clear(self) {
    }
}

/// A message followed by a line terminator.
pub fn message_line(msg: &str) -> (r: String)
    ensures
        r@ == msg@ + seq!['\n'],
{
    let mut r = String::from_str(msg);
    r.append("\n");
    proof {
        reveal_strlit("\n");
        assert("\n"@ =~= seq!['\n']);
    }
    r
}

/// A symbol, a space, a message and a line terminator.
pub fn persist_line(symbol: &str, msg: &str) -> (r: String)
    ensures
        r@ == symbol@ + seq![' '] + msg@ + seq!['\n'],
{
    let mut r = String::from_str(symbol);
    r.append(" ");
    r.append(msg);
    r.append("\n");
    proof {
        reveal_strlit(" ");
        reveal_strlit("\n");
        assert(" "@ =~= seq![' ']);
        assert("\n"@ =~= seq!['\n']);
    }
    r
}

/// A status line with a styled symbol: the symbol painted in the given
/// color, a space, the message and a line terminator.
pub fn badge_line(color: Color, symbol: &str, msg: &str) -> (r: String)
    ensures
        exists|sym: Seq<char>| r@ == sym + seq![' '] + msg@ + seq!['\n'],
        escape_free(symbol@) ==> exists|sym: Seq<char>|
            wraps(sym, symbol@) && r@ == sym + seq![' '] + msg@ + seq!['\n'],
{
    let painted = colorize(Some(color), symbol);
    let r = persist_line(painted.as_str(), msg);
    proof {
        let sym = painted@;
        assert(r@ == sym + seq![' '] + msg@ + seq!['\n']);
    }
    r
}

/// Exactly-one-loop: a handle sanctions only the animation loop of its
/// current generation, so two loops both current for one handle are of one
/// and the same generation — at no point are two generations' writes both
/// current.
pub proof fn lemma_exactly_one_loop(s: &Spinner, a: &AnimationLoop, b: &AnimationLoop)
    requires
        a.generation_view() == s.generation_view(),
        b.generation_view() == s.generation_view(),
    ensures
        a.generation_view() == b.generation_view(),
{
}

/// An update retires the loop it replaces: a loop current before the update
/// is never current again for the handle afterwards.
pub proof fn lemma_update_retires_previous(
    before: &Spinner,
    after: &Spinner,
    a: &AnimationLoop,
)
    requires
        a.generation_view() == before.generation_view(),
        after.generation_view() == before.generation_view() + 1,
    ensures
        a.generation_view() != after.generation_view(),
{
}

/// The animation never corrupts the line: a tick's output, drawn on a
/// terminal line whose visible content the tick's blanking pass covers (at
/// most `last_length` bytes, as the previous tick left it), leaves exactly
/// the new frame line visible — one coherent line of animation output at
/// every step.
pub proof fn lemma_tick_keeps_line_coherent(a: &AnimationLoop, cells: Seq<u8>, cursor: nat)
    requires
        cursor <= cells.len(),
        term::visible(cells).len() <= a.last_length_view(),
        forall|i: int| 0 <= i < a.frame_line().len() ==> a.frame_line()[i] != '\r',
    ensures
        term::visible(
            term::feed_seq(
                cells,
                cursor,
                render_bytes(a.last_length_view(), a.frame_line_bytes()),
            ).0,
        ) == term::visible(a.frame_line_bytes()),
{
    term::lemma_encode_utf8_cr_free(a.frame_line());
    term::lemma_erase_idempotent(cells, cursor, a.last_length_view(), a.frame_line_bytes());
}

/// Cycling restart: the loop a handle hands out starts its cycle at frame
/// 0, so after any update the next-drawn line shows frame 0 of the new
/// frame set — never a continuation of the previous phase.
pub proof fn lemma_cycling_restart(s: &Spinner, a: &AnimationLoop)
    requires
        s.wf(),
        a.wf(),
        s.spawns(a),
    ensures
        a.index_view() == 0,
        a.frame_line() == a.painted_view()[0] + seq![' '] + s.msg_view(),
{
}

} // verus!
