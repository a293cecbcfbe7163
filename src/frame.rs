//! One turn of the render loop: react to the pending window events, then
//! draw the mesh while the loop is still running.

use vstd::prelude::*;
use crate::calls::{has_draw, DrawMode, GlCall, IndexType};
use crate::mesh::Drawer;
use crate::shader::Shader;

verus! {

/// The keys the loop tells apart.
#[derive(Clone, Copy, Debug, PartialEq, Eq, Structural)]
pub enum KeyName {
    Escape,
    Other,
}

/// What happened to a key.
#[derive(Clone, Copy, Debug, PartialEq, Eq, Structural)]
pub enum KeyAction {
    Press,
    Release,
    Repeat,
}

/// A window event, as far as the loop reads it.
#[derive(Clone, Copy, Debug, PartialEq, Eq, Structural)]
pub enum InputEvent {
    /// The framebuffer now has this size in pixels.
    FramebufferSize { width: i32, height: i32 },
    Key { key: KeyName, action: KeyAction },
    /// The user asked the window system to close the window.
    CloseRequested,
    Other,
}

/// The state of the render loop.
#[derive(Clone, Copy, Debug, PartialEq, Eq, Structural)]
pub enum LoopState {
    Running,
    Closing,
}

/// The calls that one event causes: a resize sets the viewport to the whole
/// new framebuffer; nothing else causes a call.
pub open spec fn event_calls(e: InputEvent) -> Seq<GlCall> {
    match e {
        InputEvent::FramebufferSize { width, height } => seq![
            GlCall::Viewport { x: 0, y: 0, width, height },
        ],
        _ => seq![],
    }
}

/// Whether an event asks the loop to end: a close request or a press of Escape.
pub open spec fn event_closes(e: InputEvent) -> bool {
    ||| e is CloseRequested
    ||| e == (InputEvent::Key { key: KeyName::Escape, action: KeyAction::Press })
}

/// The calls that a run of events causes, in the order of the events.
pub open spec fn events_calls(es: Seq<InputEvent>) -> Seq<GlCall>
    decreases es.len(),
{
    if es.len() == 0 {
        seq![]
    } else {
        events_calls(es.drop_last()) + event_calls(es.last())
    }
}

/// Whether any event of the run asks the loop to end.
pub open spec fn events_close(es: Seq<InputEvent>) -> bool {
    exists|i: int| 0 <= i < es.len() && event_closes(#[trigger] es[i])
}

/// The state after a turn that started in `s` and saw the events `es`.
/// Closing is final.
pub open spec fn next_state(s: LoopState, es: Seq<InputEvent>) -> LoopState {
    if s is Closing || events_close(es) {
        LoopState::Closing
    } else {
        LoopState::Running
    }
}

/// The calls that draw one frame: clear, make the program current, bind the
/// mesh's vertex array, and draw all of its indices as triangles.
pub open spec fn draw_frame_calls(program: u32, vao: u32, index_count: int) -> Seq<GlCall> {
    seq![
        GlCall::Clear,
        GlCall::UseProgram { program },
        GlCall::BindVertexArray { vao },
        GlCall::DrawElements {
            mode: DrawMode::Triangles,
            count: index_count as i32,
            index_type: IndexType::UnsignedInt,
        },
    ]
}

/// The calls of a turn that started in `s` and saw `es`, with the program
/// `program` and a mesh of vertex array `vao` and `index_count` indices.
/// A turn that starts closed does nothing; a turn whose events close the
/// loop handles the events and draws nothing.
pub open spec fn turn_calls(
    s: LoopState,
    es: Seq<InputEvent>,
    program: u32,
    vao: u32,
    index_count: int,
) -> Seq<GlCall> {
    if s is Closing {
        seq![]
    } else if events_close(es) {
        events_calls(es)
    } else {
        events_calls(es) + draw_frame_calls(program, vao, index_count)
    }
}

/// Reads the pending events in order. Returns whether any of them asks the
/// loop to end, and the viewport calls that the resizes among them cause.
pub fn process_events(events: &Vec<InputEvent>) -> (r: (bool, Vec<GlCall>))
    ensures
        r.0 == events_close(events@),
        r.1@ == events_calls(events@),
{
    let mut close = false;
    let mut calls: Vec<GlCall> = Vec::new();
    let mut i: usize = 0;
    while i < events.len()
        invariant
            i <= events.len(),
            close == events_close(events@.subrange(0, i as int)),
            calls@ == events_calls(events@.subrange(0, i as int)),
        decreases events.len() - i,
    {
        let e = events[i];
        proof {
            let prefix = events@.subrange(0, i as int + 1);
            assert(prefix.drop_last() =~= events@.subrange(0, i as int));
            assert(prefix.last() == e);
            if event_closes(e) {
                assert(prefix[i as int] == e);
            }
            if events_close(prefix) && !event_closes(e) {
                let j = choose|j: int| 0 <= j < prefix.len() && event_closes(#[trigger] prefix[j]);
                assert(events@.subrange(0, i as int)[j] == prefix[j]);
            }
            if events_close(events@.subrange(0, i as int)) {
                let j = choose|j: int|
                    0 <= j < i && event_closes(#[trigger] events@.subrange(0, i as int)[j]);
                assert(prefix[j] == events@.subrange(0, i as int)[j]);
            }
        }
        match e {
            InputEvent::FramebufferSize { width, height } => {
                calls.push(GlCall::Viewport { x: 0, y: 0, width, height });
            },
            InputEvent::Key { key: KeyName::Escape, action: KeyAction::Press } => {
                close = true;
            },
            InputEvent::CloseRequested => {
                close = true;
            },
            _ => {},
        }
        i = i + 1;
    }
    assert(events@.subrange(0, i as int) =~= events@);
    (close, calls)
}

/// The calls that draw one frame of the mesh `drawer` with `shader`.
///
/// A draw count is a signed 32-bit integer, so the mesh holds at most
/// `i32::MAX` indices here.
pub fn draw_frame(shader: &Shader, drawer: &Drawer) -> (r: Vec<GlCall>)
    requires
        drawer.index_total() <= i32::MAX,
    ensures
        r@ == draw_frame_calls(shader.program(), drawer.objects().vao, drawer.index_total() as int),
{
    let mut calls: Vec<GlCall> = Vec::new();
    calls.push(GlCall::Clear);
    calls.push(shader.activate());
    calls.push(drawer.bind());
    calls.push(
        GlCall::DrawElements {
            mode: DrawMode::Triangles,
            count: drawer.index_count() as i32,
            index_type: IndexType::UnsignedInt,
        },
    );
    assert(calls@ =~= draw_frame_calls(
        shader.program(),
        drawer.objects().vao,
        drawer.index_total() as int,
    ));
    calls
}

/// One turn of the loop in state `state` with the pending `events`: returns
/// the next state and the calls to perform, in order. The draw count of the
/// mesh must fit a signed 32-bit integer.
pub fn run_frame(state: LoopState, events: &Vec<InputEvent>, shader: &Shader, drawer: &Drawer) -> (r: (
    LoopState,
    Vec<GlCall>,
))
    requires
        drawer.index_total() <= i32::MAX,
    ensures
        r.0 == next_state(state, events@),
        r.1@ == turn_calls(
            state,
            events@,
            shader.program(),
            drawer.objects().vao,
            drawer.index_total() as int,
        ),
{
    if let LoopState::Closing = state {
        return (LoopState::Closing, Vec::new());
    }
    let (close, mut calls) = process_events(events);
    if close {
        (LoopState::Closing, calls)
    } else {
        let mut draw = draw_frame(shader, drawer);
        calls.append(&mut draw);
        (LoopState::Running, calls)
    }
}

/// The events of a turn never cause a draw.
pub proof fn lemma_events_never_draw(es: Seq<InputEvent>)
    ensures
        !has_draw(events_calls(es)),
    decreases es.len(),
{
    if es.len() > 0 {
        lemma_events_never_draw(es.drop_last());
        let calls = events_calls(es);
        let head = events_calls(es.drop_last());
        assert forall|i: int| 0 <= i < calls.len() implies !(#[trigger] calls[i] is DrawElements) by {
            if i >= head.len() {
                assert(calls[i] == event_calls(es.last())[i - head.len()]);
            } else {
                assert(calls[i] == head[i]);
            }
        }
    }
}

/// A resize of the framebuffer to `width` by `height` in a running turn sets
/// the viewport to exactly that size, once, keeps the loop running, and the
/// frame is drawn after it.
pub proof fn lemma_resize_sets_viewport(
    width: i32,
    height: i32,
    program: u32,
    vao: u32,
    index_count: int,
)
    ensures
        ({
            let es = seq![InputEvent::FramebufferSize { width, height }];
            &&& next_state(LoopState::Running, es) == LoopState::Running
            &&& turn_calls(LoopState::Running, es, program, vao, index_count) == seq![
                GlCall::Viewport { x: 0, y: 0, width, height },
            ] + draw_frame_calls(program, vao, index_count)
        }),
{
    let es = seq![InputEvent::FramebufferSize { width, height }];
    assert(es.drop_last() =~= Seq::<InputEvent>::empty());
    reveal_with_fuel(events_calls, 2);
    assert(events_calls(es) =~= seq![GlCall::Viewport { x: 0, y: 0, width, height }]);
    assert(!events_close(es)) by {
        if events_close(es) {
            let j = choose|j: int| 0 <= j < es.len() && event_closes(#[trigger] es[j]);
            assert(es[j] == es[0]);
        }
    }
}

/// A press of Escape, or a close request, among the events of a running turn
/// moves the loop to Closing; that turn draws nothing, and neither does any
/// later turn, whatever its events.
pub proof fn lemma_close_stops_drawing(
    es: Seq<InputEvent>,
    later: Seq<InputEvent>,
    program: u32,
    vao: u32,
    index_count: int,
)
    requires
        events_close(es),
    ensures
        next_state(LoopState::Running, es) == LoopState::Closing,
        !has_draw(turn_calls(LoopState::Running, es, program, vao, index_count)),
        next_state(LoopState::Closing, later) == LoopState::Closing,
        turn_calls(LoopState::Closing, later, program, vao, index_count) == Seq::<GlCall>::empty(),
{
    lemma_events_never_draw(es);
}

} // verus!
