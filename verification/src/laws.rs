use vstd::prelude::*;
use vstd::std_specs::ops::AddSpec;
use vstd::std_specs::ops::SubSpec;
use vstd::std_specs::cmp::PartialEqSpec;
use vstd::std_specs::convert::FromSpec;
use crate::conf::Conf;
use crate::conf::Launcher;
use crate::ctx::CtxState;
use crate::ctx::frame_budget_ms;
use crate::ctx::spec_sleep_ms;
use crate::fps::seq_sum;
use crate::fps::spec_average;
use crate::fps::window_after_push;
use crate::pipeline::Pipeline;
use crate::pipeline::UniformLayout;
use crate::pipeline::VertexLayout;
use crate::window::Pos;
use crate::window::fits_i32;
use crate::ctx::FrameAction;
use crate::ctx::spec_frame_action;
use crate::draw::DrawCommand;
use crate::draw::TextureBinding;
use crate::draw::attr_commands;
use crate::draw::texture_commands;
use crate::draw::spec_draw_commands;
use crate::pipeline::Primitive;
use crate::pipeline::VertexAttr;

verus! {

/// Recording a frame rate keeps the window within its capacity, makes the new
/// sample the latest one, and keeps the most recent earlier samples in order:
/// the window is always the tail of everything recorded.
pub proof fn law_fps_window(s: Seq<u16>, cap: nat, v: u16)
    requires
        s.len() <= cap,
        cap > 0,
    ensures
        window_after_push(s, cap, v).len() <= cap,
        window_after_push(s, cap, v).len() == (if s.len() == cap { cap } else { s.len() + 1 }),
        window_after_push(s, cap, v).last() == v,
        window_after_push(s, cap, v) =~= s.push(v).subrange(
            s.push(v).len() - window_after_push(s, cap, v).len(),
            s.push(v).len() as int,
        ),
{
}

/// The sum of `n` copies of `v`.
proof fn lemma_sum_constant(s: Seq<u16>, v: u16)
    requires
        forall|i: int| 0 <= i < s.len() ==> s[i] == v,
    ensures
        seq_sum(s) == s.len() * v,
    decreases s.len(),
{
    if s.len() > 0 {
        lemma_sum_constant(s.drop_last(), v);
        assert(seq_sum(s) == (s.len() - 1) * v + v) by (nonlinear_arith)
            requires
                seq_sum(s) == seq_sum(s.drop_last()) + v,
                seq_sum(s.drop_last()) == s.drop_last().len() * v,
                s.drop_last().len() == s.len() - 1;
        assert(seq_sum(s) == s.len() * v) by (nonlinear_arith)
            requires
                seq_sum(s) == (s.len() - 1) * v + v;
    }
}

/// When every frame in the window ran at the same rate, that rate is the
/// average (for windows of fewer than 65536 samples).
pub proof fn law_fps_average_of_steady_rate(s: Seq<u16>, v: u16)
    requires
        0 < s.len() <= u16::MAX,
        forall|i: int| 0 <= i < s.len() ==> s[i] == v,
    ensures
        spec_average(s) == v,
{
    lemma_sum_constant(s, v);
    assert((s.len() as u16) as int == s.len());
    let n = s.len() as int;
    assert((n * v) / n == v) by (nonlinear_arith)
        requires
            n > 0;
}

/// After sleeping, a frame has taken exactly its budget; no sleep happens
/// once the budget is used up.
pub proof fn law_frame_pacing(real_ms: u128, fps_cap: u16)
    requires
        fps_cap > 0,
    ensures
        spec_sleep_ms(real_ms, fps_cap) matches Some(ms) ==> real_ms + ms == frame_budget_ms(fps_cap),
        spec_sleep_ms(real_ms, fps_cap) is None <==> real_ms >= frame_budget_ms(fps_cap),
        frame_budget_ms(fps_cap) <= 1000,
{
    assert(1000int / (fps_cap as int) <= 1000) by (nonlinear_arith)
        requires
            fps_cap >= 1;
    assert(1000int / (fps_cap as int) >= 0) by (nonlinear_arith)
        requires
            fps_cap >= 1;
}

/// Adding an offset and then subtracting it gives the point back.
pub proof fn law_pos_add_sub(a: Pos, b: Pos)
    requires
        fits_i32(a.x + b.x),
        fits_i32(a.y + b.y),
    ensures
        a.add_req(b),
        a.add_spec(b).sub_req(b),
        a.add_spec(b).sub_spec(b) == a,
{
}

/// Adding points does not depend on their order.
pub proof fn law_pos_add_commutes(a: Pos, b: Pos)
    ensures
        a.add_req(b) == b.add_req(a),
        a.add_spec(b) == b.add_spec(a),
{
}

/// A point converted to a pair and back is the same point.
pub proof fn law_pos_pair_round_trip(p: Pos)
    ensures
        <Pos as FromSpec<(i32, i32)>>::from_spec(<(i32, i32) as FromSpec<Pos>>::from_spec(p)) == p,
{
}

/// Equality of pipelines is an equivalence relation.
pub proof fn law_pipeline_eq_equivalence<V: VertexLayout, U: UniformLayout>(
    a: Pipeline<V, U>,
    b: Pipeline<V, U>,
    c: Pipeline<V, U>,
)
    ensures
        a.eq_spec(&a),
        a.eq_spec(&b) == b.eq_spec(&a),
        a.eq_spec(&b) && b.eq_spec(&c) ==> a.eq_spec(&c),
{
}

/// Toggling a window setting twice gives back the state it started from:
/// `s1` is the state `toggle_fullscreen` (or `toggle_cursor_hidden`, or a
/// successful `toggle_cursor_locked`) leaves from `s0`, and `s2` the state the
/// same toggle leaves from `s1`.
pub proof fn law_toggle_twice_restores(s0: CtxState, s1: CtxState, s2: CtxState)
    requires
        (s1 == CtxState { fullscreen: !s0.fullscreen, ..s0 } && s2 == CtxState { fullscreen: !s1.fullscreen, ..s1 })
        || (s1 == CtxState { cursor_hidden: !s0.cursor_hidden, ..s0 } && s2 == CtxState { cursor_hidden: !s1.cursor_hidden, ..s1 })
        || (s1 == CtxState { cursor_locked: !s0.cursor_locked, ..s0 } && s2 == CtxState { cursor_locked: !s1.cursor_locked, ..s1 }),
    ensures
        s2 == s0,
{
}

/// A launcher given a title and then a size holds the same configuration as
/// `Conf::basic` with that title and size: `l0` is a new launcher, `l1` the
/// one `title(t)` returned, `l2` the one `size(w, h)` returned, and `c` the
/// configuration `Conf::basic(t, w, h)` returned.
pub proof fn law_launcher_matches_basic(
    l0: Launcher,
    l1: Launcher,
    l2: Launcher,
    c: Conf,
    t: Seq<char>,
    w: i32,
    h: i32,
)
    requires
        l0.settings().width == 640,
        l0.settings().height == 480,
        l0.settings().has_default_flags(),
        l1.settings().title@ == t,
        l1.settings().same_but_title(&l0.settings()),
        l2.settings() == (Conf { width: w, height: h, ..l1.settings() }),
        c.title@ == t,
        c.width == w,
        c.height == h,
        c.has_default_flags(),
    ensures
        l2.settings().same_as(&c),
{
}

/// The average the counter reports is the integer mean of all samples in the
/// window: for a non-empty window of fewer than 65536 samples, it is the
/// largest `q` with `q * n <= sum`, where `n` is the number of samples and
/// `sum` their total.
pub proof fn law_fps_average_is_mean(s: Seq<u16>)
    requires
        0 < s.len() <= u16::MAX,
    ensures
        spec_average(s) * s.len() <= seq_sum(s),
        seq_sum(s) < (spec_average(s) + 1) * s.len(),
{
    assert((s.len() as u16) as int == s.len());
    let n = s.len() as int;
    let t = seq_sum(s) as int;
    assert((t / n) * n <= t && t < (t / n + 1) * n) by (nonlinear_arith)
        requires
            n > 0,
            t >= 0;
}

/// The sum over a window is the sum of its samples: appending a sample adds
/// it to the sum.
pub proof fn law_fps_sum_of_samples(s: Seq<u16>, v: u16)
    ensures
        seq_sum(s.push(v)) == seq_sum(s) + v,
        seq_sum(Seq::<u16>::empty()) == 0,
{
    assert(s.push(v).drop_last() =~= s);
}

/// After a frame the main loop stops once quit was requested; otherwise it
/// sleeps exactly what is left of the frame budget (the integer part of
/// `1000 / fps_cap` milliseconds, unlimited at a cap of zero) when the frame
/// took less than that, and goes straight on when it did not.
pub proof fn law_end_of_frame(quit: bool, real_ms: u128, fps_cap: u16)
    ensures
        quit ==> spec_frame_action(quit, real_ms, fps_cap) == FrameAction::Stop,
        !quit && fps_cap > 0 && (real_ms as int) < 1000int / (fps_cap as int) ==> spec_frame_action(
            quit,
            real_ms,
            fps_cap,
        ) == FrameAction::Sleep((1000int / (fps_cap as int) - real_ms) as u64),
        !quit && fps_cap > 0 && (real_ms as int) >= 1000int / (fps_cap as int) ==> spec_frame_action(
            quit,
            real_ms,
            fps_cap,
        ) == FrameAction::Continue,
        !quit && fps_cap == 0 && real_ms < u128::MAX ==> spec_frame_action(quit, real_ms, fps_cap)
            == FrameAction::Sleep((u128::MAX - real_ms) as u64),
        !quit && fps_cap == 0 && real_ms == u128::MAX ==> spec_frame_action(quit, real_ms, fps_cap)
            == FrameAction::Continue,
{
}

/// A sleep tops the frame up to exactly its budget.
pub proof fn law_sleep_fills_budget(real_ms: u128, fps_cap: u16)
    requires
        fps_cap > 0,
    ensures
        spec_frame_action(false, real_ms, fps_cap) matches FrameAction::Sleep(ms)
            ==> real_ms + ms == 1000int / (fps_cap as int),
{
    assert(1000int / (fps_cap as int) <= 1000) by (nonlinear_arith)
        requires
            fps_cap >= 1;
}

/// Two pipelines compare equal exactly when they run the same program.
pub proof fn law_pipeline_eq_same_program<V: VertexLayout, U: UniformLayout>(
    a: Pipeline<V, U>,
    b: Pipeline<V, U>,
)
    ensures
        a.eq_spec(&b) <==> a.program() == b.program(),
{
}

/// The GL drawing mode of each primitive.
pub open spec fn gl_mode_of(prim: Primitive) -> u32 {
    match prim {
        Primitive::Point(_) => 0,
        Primitive::Line(_) => 1,
        Primitive::LineStrip => 3,
        Primitive::Triangle => 4,
        Primitive::TriangleStrip => 5,
        Primitive::TriangleFan => 6,
    }
}

proof fn lemma_attr_commands_draw_nothing(
    attrs: Seq<VertexAttr>,
    locations: Seq<Option<u32>>,
    vertex_size: usize,
    n: nat,
)
    ensures
        forall|i: int|
            0 <= i < attr_commands(attrs, locations, vertex_size, n).len() ==> !(#[trigger] attr_commands(
                attrs,
                locations,
                vertex_size,
                n,
            )[i] is DrawElements),
    decreases n,
{
    if n > 0 {
        lemma_attr_commands_draw_nothing(attrs, locations, vertex_size, (n - 1) as nat);
    }
}

proof fn lemma_texture_commands_draw_nothing(textures: Seq<TextureBinding>, n: nat, bind: bool)
    ensures
        forall|i: int|
            0 <= i < texture_commands(textures, n, bind).len() ==> !(#[trigger] texture_commands(
                textures,
                n,
                bind,
            )[i] is DrawElements),
    decreases n,
{
    if n > 0 {
        lemma_texture_commands_draw_nothing(textures, (n - 1) as nat, bind);
    }
}

/// A draw call draws exactly once, with the GL drawing mode of its primitive
/// (points 0, lines 1, line strips 3, triangles 4, triangle strips 5,
/// triangle fans 6) and the index count: `cmds` are the steps of a draw call.
pub proof fn law_draw_uses_primitive_mode(
    program: u32,
    vbuf: Option<u32>,
    ibuf: Option<u32>,
    attrs: Seq<VertexAttr>,
    locations: Seq<Option<u32>>,
    vertex_size: usize,
    textures: Seq<TextureBinding>,
    count: u32,
    prim: Primitive,
    cmds: Seq<DrawCommand>,
)
    requires
        cmds == spec_draw_commands(program, vbuf, ibuf, attrs, locations, vertex_size, textures, count, prim),
    ensures
        exists|i: int| 0 <= i < cmds.len() && cmds[i] == DrawCommand::DrawElements(gl_mode_of(prim), count as i32),
        forall|i: int, j: int|
            0 <= i < cmds.len() && 0 <= j < cmds.len() && (#[trigger] cmds[i]) is DrawElements
                && (#[trigger] cmds[j]) is DrawElements ==> i == j,
        forall|i: int|
            0 <= i < cmds.len() && (#[trigger] cmds[i]) is DrawElements
                ==> cmds[i] == DrawCommand::DrawElements(gl_mode_of(prim), count as i32),
{
    let a = if vbuf is Some { attr_commands(attrs, locations, vertex_size, attrs.len()) } else { Seq::empty() };
    let tb = texture_commands(textures, textures.len(), true);
    let tu = texture_commands(textures, textures.len(), false);
    let lw: Seq<DrawCommand> = match prim {
        Primitive::Line(w) => seq![DrawCommand::LineWidth(w)],
        _ => Seq::empty(),
    };
    let tail = seq![
        DrawCommand::DrawElements(gl_mode_of(prim), count as i32),
        DrawCommand::BindElementBuffer(None),
        DrawCommand::BindArrayBuffer(None),
        DrawCommand::UseProgram(None),
    ];
    let head = seq![DrawCommand::UseProgram(Some(program)), DrawCommand::BindArrayBuffer(vbuf)];
    let mid = seq![DrawCommand::BindElementBuffer(ibuf)];
    assert(cmds =~= head + a + mid + tb + lw + tail + tu);
    lemma_attr_commands_draw_nothing(attrs, locations, vertex_size, attrs.len());
    lemma_texture_commands_draw_nothing(textures, textures.len(), true);
    lemma_texture_commands_draw_nothing(textures, textures.len(), false);
    let k: int = (head.len() + a.len() + mid.len() + tb.len() + lw.len()) as int;
    assert(cmds[k] == DrawCommand::DrawElements(gl_mode_of(prim), count as i32));
    assert forall|i: int| 0 <= i < cmds.len() && (#[trigger] cmds[i]) is DrawElements implies i == k by {
        if i < head.len() {
            assert(cmds[i] == head[i]);
        } else if i < head.len() + a.len() {
            assert(cmds[i] == a[i - head.len()]);
        } else if i < head.len() + a.len() + mid.len() {
            assert(cmds[i] == mid[i - head.len() - a.len()]);
        } else if i < head.len() + a.len() + mid.len() + tb.len() {
            assert(cmds[i] == tb[i - head.len() - a.len() - mid.len()]);
        } else if i < k {
            assert(cmds[i] == lw[i - head.len() - a.len() - mid.len() - tb.len()]);
        } else if i < k + tail.len() {
            assert(cmds[i] == tail[i - k]);
        } else {
            assert(cmds[i] == tu[i - k - tail.len()]);
        }
    }
}

} // verus!
