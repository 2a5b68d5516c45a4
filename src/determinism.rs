use crate::command::{CommandView, ProgramId, TextureId};
use crate::config_file::{Link, Node};
use crate::gamedata::GameData;
use crate::gamestate::GameState;
use crate::keyboard::keyboard_bind_commands;
use crate::node::{kernel_input_count, kernel_input_index, kernel_output_texture, NodeError, NodeKernel};
use crate::output::Output;
use crate::renderpass::{
    config_outputs_match, framebuffer_commands, input_bind_commands, mipmap_commands, output_set_commands,
    output_texture_commands, resize_set_commands, OutputSlot, RenderPass,
};
use crate::runtime::{
    bound_inputs, built, creation_commands, creation_commands_upto, inbound_view, kernel_linked,
    kernel_resize_commands, kernel_resized, link_commands, link_error, links_error, nodes_error,
    key_applied, rendered, resize_commands, resize_nodes, run_nodes, step_node, GameToy, GameToyError, InboundLink,
};
use vstd::prelude::*;

verus! {

/// Two output slot lists that agree on names (as text), formats and mip chains.
pub open spec fn outputs_equiv(a: Seq<OutputSlot>, b: Seq<OutputSlot>) -> bool {
    &&& a.len() == b.len()
    &&& forall|i: int|
        0 <= i < a.len() ==> (#[trigger] a[i]).name@ == b[i].name@ && a[i].format == b[i].format
            && a[i].generate_mipmap == b[i].generate_mipmap
}

/// Two lists of names that agree as text.
pub open spec fn names_equiv(a: Seq<String>, b: Seq<String>) -> bool {
    &&& a.len() == b.len()
    &&& forall|i: int| 0 <= i < a.len() ==> (#[trigger] a[i])@ == b[i]@
}

/// Two running nodes that agree on everything but the identity of their strings.
pub open spec fn kernel_equiv(a: NodeKernel, b: NodeKernel) -> bool {
    match (a, b) {
        (NodeKernel::RenderPass(p), NodeKernel::RenderPass(q)) => {
            &&& p.name@ == q.name@
            &&& p.node == q.node
            &&& p.scaling == q.scaling
            &&& p.width == q.width
            &&& p.height == q.height
            &&& p.frame == q.frame
            &&& p.double_buffered == q.double_buffered
            &&& names_equiv(p.input_names@, q.input_names@)
            &&& outputs_equiv(p.outputs@, q.outputs@)
        },
        (NodeKernel::Image(x), NodeKernel::Image(y)) => x.name@ == y.name@ && x.node == y.node,
        (NodeKernel::Keyboard(x), NodeKernel::Keyboard(y)) => x.name@ == y.name@ && x.node == y.node,
        (NodeKernel::Output(x), NodeKernel::Output(y)) => x.name@ == y.name@ && x.node == y.node && x.width
            == y.width && x.height == y.height,
        _ => false,
    }
}

/// Two node lists that agree node by node.
pub open spec fn nodes_equiv(a: Seq<NodeKernel>, b: Seq<NodeKernel>) -> bool {
    &&& a.len() == b.len()
    &&& forall|i: int| 0 <= i < a.len() ==> kernel_equiv(#[trigger] a[i], b[i])
}

/// Two link tables that agree on every link's start and slot names.
pub open spec fn links_equiv(a: Seq<Vec<InboundLink>>, b: Seq<Vec<InboundLink>>) -> bool {
    &&& a.len() == b.len()
    &&& forall|i: int|
        0 <= i < a.len() ==> (#[trigger] a[i])@.map_values(|l: InboundLink| inbound_view(l)) == b[i]@.map_values(
            |l: InboundLink| inbound_view(l),
        )
}

/// Two frame errors that are the same error, comparing texts by their characters.
pub open spec fn frame_errors_equiv(a: Option<GameToyError>, b: Option<GameToyError>) -> bool {
    match (a, b) {
        (None, None) => true,
        (
            Some(GameToyError::GetInputTextureFailed(n1, NodeError::NoSuchOutputTexture(s1))),
            Some(GameToyError::GetInputTextureFailed(n2, NodeError::NoSuchOutputTexture(s2))),
        ) => n1@ == n2@ && s1@ == s2@,
        (
            Some(GameToyError::BindInputTextureFailed(n1, NodeError::NoSuchInputTexture(s1))),
            Some(GameToyError::BindInputTextureFailed(n2, NodeError::NoSuchInputTexture(s2))),
        ) => n1@ == n2@ && s1@ == s2@,
        _ => false,
    }
}

/// Two engines that agree on everything a frame reads or writes, strings as text.
pub open spec fn engines_equiv(a: GameToy, b: GameToy) -> bool {
    &&& nodes_equiv(a.nodes@, b.nodes@)
    &&& links_equiv(a.links@, b.links@)
    &&& a.output_node == b.output_node
    &&& a.enable_output == b.enable_output
    &&& a.screen_width == b.screen_width
    &&& a.screen_height == b.screen_height
    &&& a.resolution_dirty == b.resolution_dirty
    &&& a.game_state.time_since_start == b.game_state.time_since_start
    &&& a.game_state.time_delta == b.game_state.time_delta
    &&& a.game_state.date == b.game_state.date
    &&& a.game_state.prev_render_time == b.game_state.prev_render_time
    &&& a.game_state.keys@ == b.game_state.keys@
    &&& a.game_state.keys_dirty == b.game_state.keys_dirty
}

proof fn lemma_kernel_queries(a: NodeKernel, b: NodeKernel, out_slot: Seq<char>, in_slot: Seq<char>)
    requires
        kernel_equiv(a, b),
    ensures
        kernel_output_texture(a, out_slot) == kernel_output_texture(b, out_slot),
        kernel_input_index(a, in_slot) == kernel_input_index(b, in_slot),
        kernel_input_count(a) == kernel_input_count(b),
{
    match (a, b) {
        (NodeKernel::RenderPass(p), NodeKernel::RenderPass(q)) => {
            assert(p.outputs@.map_values(|s: OutputSlot| s.name@) =~= q.outputs@.map_values(|s: OutputSlot| s.name@));
            assert(p.input_names@.map_values(|s: String| s@) =~= q.input_names@.map_values(|s: String| s@));
        },
        _ => {},
    }
}

proof fn lemma_link_view(a: Seq<InboundLink>, b: Seq<InboundLink>, j: int)
    requires
        a.map_values(|l: InboundLink| inbound_view(l)) == b.map_values(|l: InboundLink| inbound_view(l)),
        0 <= j < a.len(),
    ensures
        a.len() == b.len(),
        a[j].start == b[j].start,
        a[j].start_output_slot@ == b[j].start_output_slot@,
        a[j].end_input_slot@ == b[j].end_input_slot@,
{
    assert(a.map_values(|l: InboundLink| inbound_view(l)).len() == a.len());
    assert(a.map_values(|l: InboundLink| inbound_view(l))[j] == inbound_view(a[j]));
    assert(b.map_values(|l: InboundLink| inbound_view(l))[j] == inbound_view(b[j]));
}

proof fn lemma_bound_inputs(
    n1: Seq<NodeKernel>,
    n2: Seq<NodeKernel>,
    k1: NodeKernel,
    k2: NodeKernel,
    l1: Seq<InboundLink>,
    l2: Seq<InboundLink>,
    n: nat,
)
    requires
        nodes_equiv(n1, n2),
        kernel_equiv(k1, k2),
        l1.map_values(|l: InboundLink| inbound_view(l)) == l2.map_values(|l: InboundLink| inbound_view(l)),
        n <= l1.len(),
        forall|j: int| 0 <= j < l1.len() ==> (#[trigger] l1[j]).start < n1.len(),
    ensures
        bound_inputs(n1, k1, l1, n) == bound_inputs(n2, k2, l2, n),
    decreases n,
{
    lemma_kernel_queries(k1, k2, seq![], seq![]);
    if n > 0 {
        lemma_bound_inputs(n1, n2, k1, k2, l1, l2, (n - 1) as nat);
        let j = n - 1;
        lemma_link_view(l1, l2, j);
        let s = l1[j].start as int;
        assert(kernel_equiv(n1[s], n2[s]));
        lemma_kernel_queries(n1[s], n2[s], l1[j].start_output_slot@, l1[j].end_input_slot@);
        lemma_kernel_queries(k1, k2, l1[j].start_output_slot@, l1[j].end_input_slot@);
    } else {
        assert(Seq::new(kernel_input_count(k1), |j: int| None::<TextureId>) =~= Seq::new(
            kernel_input_count(k2),
            |j: int| None::<TextureId>,
        ));
    }
}

proof fn lemma_input_bind_commands(program: ProgramId, a: Seq<String>, b: Seq<String>, t: Seq<Option<TextureId>>, n: nat)
    requires
        names_equiv(a, b),
        n <= a.len(),
    ensures
        input_bind_commands(program, a, t, n) == input_bind_commands(program, b, t, n),
    decreases n,
{
    if n > 0 {
        lemma_input_bind_commands(program, a, b, t, (n - 1) as nat);
        assert(a[n - 1]@ == b[n - 1]@);
    }
}

proof fn lemma_mipmap_commands(node: usize, back: bool, a: Seq<OutputSlot>, b: Seq<OutputSlot>, n: nat)
    requires
        outputs_equiv(a, b),
        n <= a.len(),
    ensures
        mipmap_commands(node, back, a, n) == mipmap_commands(node, back, b, n),
    decreases n,
{
    if n > 0 {
        lemma_mipmap_commands(node, back, a, b, (n - 1) as nat);
        assert(a[n - 1].generate_mipmap == b[n - 1].generate_mipmap);
    }
}

proof fn lemma_resize_set_commands(node: usize, back: bool, a: Seq<OutputSlot>, b: Seq<OutputSlot>, n: nat, w: u64, h: u64)
    requires
        outputs_equiv(a, b),
        n <= a.len(),
    ensures
        resize_set_commands(node, back, a, n, w, h) == resize_set_commands(node, back, b, n, w, h),
    decreases n,
{
    if n > 0 {
        lemma_resize_set_commands(node, back, a, b, (n - 1) as nat, w, h);
        assert(a[n - 1].format == b[n - 1].format);
    }
}

proof fn lemma_framebuffer_commands(
    node: usize,
    back: bool,
    a: Seq<OutputSlot>,
    b: Seq<OutputSlot>,
    scaling: crate::config_file::ResolutionScalingMode,
    w: u64,
    h: u64,
)
    requires
        outputs_equiv(a, b),
    ensures
        framebuffer_commands(node, back, a, scaling, w, h) == framebuffer_commands(node, back, b, scaling, w, h),
{
    lemma_output_set_commands(node, back, a, b, a.len(), scaling, w, h);
}

proof fn lemma_output_set_commands(
    node: usize,
    back: bool,
    a: Seq<OutputSlot>,
    b: Seq<OutputSlot>,
    n: nat,
    scaling: crate::config_file::ResolutionScalingMode,
    w: u64,
    h: u64,
)
    requires
        outputs_equiv(a, b),
        n <= a.len(),
    ensures
        output_set_commands(node, back, a, n, scaling, w, h) == output_set_commands(node, back, b, n, scaling, w, h),
    decreases n,
{
    if n > 0 {
        lemma_output_set_commands(node, back, a, b, (n - 1) as nat, scaling, w, h);
        assert(a[n - 1].format == b[n - 1].format && a[n - 1].generate_mipmap == b[n - 1].generate_mipmap);
        assert(output_texture_commands(node, back, n - 1, a[n - 1], scaling, w, h) == output_texture_commands(
            node,
            back,
            n - 1,
            b[n - 1],
            scaling,
            w,
            h,
        ));
    }
}

proof fn lemma_step_node(n1: Seq<NodeKernel>, n2: Seq<NodeKernel>, l1: Seq<InboundLink>, l2: Seq<InboundLink>, g1: GameState, g2: GameState, i: int)
    requires
        nodes_equiv(n1, n2),
        0 <= i < n1.len(),
        l1.map_values(|l: InboundLink| inbound_view(l)) == l2.map_values(|l: InboundLink| inbound_view(l)),
        forall|j: int| 0 <= j < l1.len() ==> (#[trigger] l1[j]).start < n1.len(),
        g1.time_since_start == g2.time_since_start,
        g1.time_delta == g2.time_delta,
        g1.date == g2.date,
        g1.keys@ == g2.keys@,
        g1.keys_dirty == g2.keys_dirty,
    ensures
        nodes_equiv(step_node(n1, l1, g1, i).0, step_node(n2, l2, g2, i).0),
        step_node(n1, l1, g1, i).1 == step_node(n2, l2, g2, i).1,
{
    assert(kernel_equiv(n1[i], n2[i]));
    assert(l1.map_values(|l: InboundLink| inbound_view(l)).len() == l1.len());
    assert(l2.map_values(|l: InboundLink| inbound_view(l)).len() == l2.len());
    lemma_bound_inputs(n1, n2, n1[i], n2[i], l1, l2, l1.len());
    match (n1[i], n2[i]) {
        (NodeKernel::RenderPass(p), NodeKernel::RenderPass(q)) => {
            lemma_input_bind_commands(crate::renderpass::program_of(p.node), p.input_names@, q.input_names@, bound_inputs(n1, n1[i], l1, l1.len()), p.input_names@.len());
            lemma_mipmap_commands(p.node, crate::renderpass::shows_back(p.double_buffered, p.bound().frame), p.outputs@, q.outputs@, p.outputs@.len());
            let s1 = step_node(n1, l1, g1, i).0;
            let s2 = step_node(n2, l2, g2, i).0;
            assert forall|j: int| 0 <= j < s1.len() implies kernel_equiv(#[trigger] s1[j], s2[j]) by {
                if j != i {
                    assert(kernel_equiv(n1[j], n2[j]));
                }
            }
        },
        _ => {},
    }
}

proof fn lemma_run_nodes(n1: Seq<NodeKernel>, n2: Seq<NodeKernel>, l1: Seq<Vec<InboundLink>>, l2: Seq<Vec<InboundLink>>, g1: GameState, g2: GameState, skip: Option<usize>, n: nat)
    requires
        nodes_equiv(n1, n2),
        links_equiv(l1, l2),
        l1.len() == n1.len(),
        n <= n1.len(),
        forall|i: int, j: int| 0 <= i < l1.len() && 0 <= j < l1[i]@.len() ==> (#[trigger] l1[i]@[j]).start < n1.len(),
        g1.time_since_start == g2.time_since_start,
        g1.time_delta == g2.time_delta,
        g1.date == g2.date,
        g1.keys@ == g2.keys@,
        g1.keys_dirty == g2.keys_dirty,
    ensures
        nodes_equiv(run_nodes(n1, l1, g1, skip, n).0, run_nodes(n2, l2, g2, skip, n).0),
        run_nodes(n1, l1, g1, skip, n).0.len() == n1.len(),
        run_nodes(n1, l1, g1, skip, n).1 == run_nodes(n2, l2, g2, skip, n).1,
    decreases n,
{
    if n > 0 {
        lemma_run_nodes(n1, n2, l1, l2, g1, g2, skip, (n - 1) as nat);
        if skip != Some((n - 1) as usize) {
            let m1 = run_nodes(n1, l1, g1, skip, (n - 1) as nat).0;
            let m2 = run_nodes(n2, l2, g2, skip, (n - 1) as nat).0;
            assert(l1[n - 1]@.map_values(|l: InboundLink| inbound_view(l)) == l2[n - 1]@.map_values(|l: InboundLink| inbound_view(l)));
            assert forall|j: int| 0 <= j < l1[n - 1]@.len() implies (#[trigger] l1[n - 1]@[j]).start < m1.len() by {}
            lemma_step_node(m1, m2, l1[n - 1]@, l2[n - 1]@, g1, g2, n - 1);
        }
    }
}

proof fn lemma_resize(n1: Seq<NodeKernel>, n2: Seq<NodeKernel>, w: u32, h: u32, n: nat)
    requires
        nodes_equiv(n1, n2),
        n <= n1.len(),
    ensures
        nodes_equiv(resize_nodes(n1, w, h, n), resize_nodes(n2, w, h, n)),
        resize_commands(n1, w, h, n) == resize_commands(n2, w, h, n),
    decreases n,
{
    if n > 0 {
        lemma_resize(n1, n2, w, h, (n - 1) as nat);
        let j = n - 1;
        assert(kernel_equiv(n1[j], n2[j]));
        match (n1[j], n2[j]) {
            (NodeKernel::RenderPass(p), NodeKernel::RenderPass(q)) => {
                let (pw, ph) = crate::renderpass::scaled_resolution(p.scaling, w, h);
                lemma_resize_set_commands(p.node, false, p.outputs@, q.outputs@, p.outputs@.len(), pw, ph);
                lemma_resize_set_commands(p.node, true, p.outputs@, q.outputs@, p.outputs@.len(), pw, ph);
            },
            _ => {},
        }
    }
    let r1 = resize_nodes(n1, w, h, n);
    let r2 = resize_nodes(n2, w, h, n);
    assert forall|j: int| 0 <= j < r1.len() implies kernel_equiv(#[trigger] r1[j], r2[j]) by {
        assert(kernel_equiv(n1[j], n2[j]));
    }
}

proof fn lemma_links_error(n1: Seq<NodeKernel>, n2: Seq<NodeKernel>, i: int, l1: Seq<InboundLink>, l2: Seq<InboundLink>, n: nat)
    requires
        nodes_equiv(n1, n2),
        0 <= i < n1.len(),
        l1.map_values(|l: InboundLink| inbound_view(l)) == l2.map_values(|l: InboundLink| inbound_view(l)),
        n <= l1.len(),
        forall|j: int| 0 <= j < l1.len() ==> (#[trigger] l1[j]).start < n1.len(),
    ensures
        frame_errors_equiv(links_error(n1, i, l1, n), links_error(n2, i, l2, n)),
    decreases n,
{
    if n > 0 {
        lemma_links_error(n1, n2, i, l1, l2, (n - 1) as nat);
        let j = n - 1;
        lemma_link_view(l1, l2, j);
        let s = l1[j].start as int;
        assert(kernel_equiv(n1[s], n2[s]));
        assert(kernel_equiv(n1[i], n2[i]));
        lemma_kernel_queries(n1[s], n2[s], l1[j].start_output_slot@, l1[j].end_input_slot@);
        lemma_kernel_queries(n1[i], n2[i], l1[j].start_output_slot@, l1[j].end_input_slot@);
    }
}

proof fn lemma_nodes_error(n1: Seq<NodeKernel>, n2: Seq<NodeKernel>, l1: Seq<Vec<InboundLink>>, l2: Seq<Vec<InboundLink>>, skip: Option<usize>, n: nat)
    requires
        nodes_equiv(n1, n2),
        links_equiv(l1, l2),
        l1.len() == n1.len(),
        n <= n1.len(),
        forall|i: int, j: int| 0 <= i < l1.len() && 0 <= j < l1[i]@.len() ==> (#[trigger] l1[i]@[j]).start < n1.len(),
    ensures
        frame_errors_equiv(nodes_error(n1, l1, skip, n), nodes_error(n2, l2, skip, n)),
    decreases n,
{
    if n > 0 {
        lemma_nodes_error(n1, n2, l1, l2, skip, (n - 1) as nat);
        let i = n - 1;
        assert(l1[i]@.map_values(|l: InboundLink| inbound_view(l)) == l2[i]@.map_values(|l: InboundLink| inbound_view(l)));
        assert(l1[i]@.map_values(|l: InboundLink| inbound_view(l)).len() == l1[i]@.len());
        assert(l2[i]@.map_values(|l: InboundLink| inbound_view(l)).len() == l2[i]@.len());
        assert forall|j: int| 0 <= j < l1[i]@.len() implies (#[trigger] l1[i]@[j]).start < n1.len() by {}
        lemma_links_error(n1, n2, i, l1[i]@, l2[i]@, l1[i]@.len());
    }
}

/// Execution determinism, one frame: engines that agree on everything a frame
/// reads fail alike or render the same commands in the same order, and the
/// engines they become agree again. With `lemma_build_deterministic`, identical
/// bundles, times, key events and resizes therefore give identical commands.
pub proof fn lemma_frame_deterministic(a: GameToy, b: GameToy, now: u64, a2: GameToy, b2: GameToy)
    requires
        a.wf(),
        engines_equiv(a, b),
    ensures
        frame_errors_equiv(a.frame_error(), b.frame_error()),
        a.frame(now).1 == b.frame(now).1,
        rendered(a, now, a2) && rendered(b, now, b2) ==> engines_equiv(a2, b2),
{
    lemma_nodes_error(a.nodes@, b.nodes@, a.links@, b.links@, a.skipped_node(), a.nodes@.len());
    let r1 = a.resized_nodes();
    let r2 = b.resized_nodes();
    lemma_resize(a.nodes@, b.nodes@, a.screen_width, a.screen_height, a.nodes@.len());
    assert(nodes_equiv(r1, r2));
    assert(r1.len() == a.nodes@.len());
    lemma_run_nodes(r1, r2, a.links@, b.links@, a.frame_game_state(now), b.frame_game_state(now), a.skipped_node(), a.nodes@.len());
    if rendered(a, now, a2) && rendered(b, now, b2) {
        assert(a2.links@ == a.links@);
        assert(b2.links@ == b.links@);
    }
}

proof fn lemma_creation_upto(cfg: Seq<Node>, k1: Seq<NodeKernel>, k2: Seq<NodeKernel>, data: GameData, n: nat)
    requires
        n <= cfg.len(),
        k1.len() == cfg.len(),
        k2.len() == cfg.len(),
        forall|i: int| 0 <= i < cfg.len() ==> crate::runtime::kernel_built(#[trigger] k1[i], cfg[i], i),
        forall|i: int| 0 <= i < cfg.len() ==> crate::runtime::kernel_built(#[trigger] k2[i], cfg[i], i),
    ensures
        creation_commands_upto(cfg, k1, data, n) == creation_commands_upto(cfg, k2, data, n),
    decreases n,
{
    if n > 0 {
        lemma_creation_upto(cfg, k1, k2, data, (n - 1) as nat);
        let i = n - 1;
        assert(crate::runtime::kernel_built(k1[i], cfg[i], i));
        assert(crate::runtime::kernel_built(k2[i], cfg[i], i));
        match (cfg[i], k1[i], k2[i]) {
            (Node::RenderPass(c), NodeKernel::RenderPass(p), NodeKernel::RenderPass(q)) => {
                lemma_built_outputs(p.outputs@, q.outputs@, c);
                lemma_framebuffer_commands(i as usize, false, p.outputs@, q.outputs@, p.scaling, p.width, p.height);
            },
            _ => {},
        }
    }
}

proof fn lemma_built_outputs(a: Seq<OutputSlot>, b: Seq<OutputSlot>, c: crate::config_file::RenderPassConfig)
    requires
        config_outputs_match(a, c),
        config_outputs_match(b, c),
    ensures
        outputs_equiv(a, b),
{
    assert forall|i: int| 0 <= i < a.len() implies (#[trigger] a[i]).name@ == b[i].name@ && a[i].format == b[i].format
        && a[i].generate_mipmap == b[i].generate_mipmap by {
        assert(a[i].name@ == c.output_texture_slots@[i].name@);
        assert(b[i].name@ == c.output_texture_slots@[i].name@);
    }
}

proof fn lemma_link_commands(k1: Seq<NodeKernel>, k2: Seq<NodeKernel>, names: Seq<Seq<char>>, links: Seq<Link>, n: nat)
    requires
        nodes_equiv(k1, k2),
        n <= links.len(),
        names.len() == k1.len(),
    ensures
        link_commands(k1, names, links, n) == link_commands(k2, names, links, n),
    decreases n,
{
    if n > 0 {
        lemma_link_commands(k1, k2, names, links, (n - 1) as nat);
        let l = links[n - 1];
        match crate::renderpass::name_index(names, l.start_node@) {
            Some(j) => {
                crate::renderpass::lemma_name_index_bounds(names, l.start_node@);
                assert(kernel_equiv(k1[j], k2[j]));
                match (k1[j], k2[j]) {
                    (NodeKernel::RenderPass(p), NodeKernel::RenderPass(q)) => {
                        lemma_framebuffer_commands(p.node, true, p.outputs@, q.outputs@, p.scaling, p.width, p.height);
                    },
                    _ => {},
                }
            },
            None => {},
        }
    }
}

/// Execution determinism, construction: two engines built from the same bundle
/// agree on everything a frame reads, and their setup commands are the same.
pub proof fn lemma_build_deterministic(
    data: GameData,
    enable_output: bool,
    t1: GameToy,
    c1: Seq<CommandView>,
    t2: GameToy,
    c2: Seq<CommandView>,
)
    requires
        built(data, enable_output, t1, c1),
        built(data, enable_output, t2, c2),
    ensures
        engines_equiv(t1, t2),
        c1 == c2,
{
    let cfg = data.config_file.graph.nodes@;
    let links = data.config_file.graph.links@;
    let names = crate::runtime::config_names(cfg);
    let b1 = t1.nodes@.map_values(|k: NodeKernel| kernel_linked(k, false));
    let b2 = t2.nodes@.map_values(|k: NodeKernel| kernel_linked(k, false));
    assert forall|i: int| 0 <= i < cfg.len() implies kernel_equiv(#[trigger] b1[i], b2[i]) by {
        assert(crate::runtime::kernel_built(b1[i], cfg[i], i));
        assert(crate::runtime::kernel_built(b2[i], cfg[i], i));
        match (cfg[i], b1[i], b2[i]) {
            (Node::RenderPass(c), NodeKernel::RenderPass(p), NodeKernel::RenderPass(q)) => {
                lemma_built_outputs(p.outputs@, q.outputs@, c);
                assert(p.input_names@.map_values(|s: String| s@) == q.input_names@.map_values(|s: String| s@));
                assert(p.input_names@.map_values(|s: String| s@).len() == p.input_names@.len());
                assert(q.input_names@.map_values(|s: String| s@).len() == q.input_names@.len());
                assert forall|j: int| 0 <= j < p.input_names@.len() implies (#[trigger] p.input_names@[j])@ == q.input_names@[j]@ by {
                    assert(p.input_names@.map_values(|s: String| s@)[j] == p.input_names@[j]@);
                    assert(q.input_names@.map_values(|s: String| s@)[j] == q.input_names@[j]@);
                }
            },
            _ => {},
        }
    }
    assert forall|i: int| 0 <= i < cfg.len() implies kernel_equiv(#[trigger] t1.nodes@[i], t2.nodes@[i]) by {
        assert(kernel_equiv(b1[i], b2[i]));
        assert(t1.nodes@[i] == kernel_linked(b1[i], crate::runtime::self_linked(names, links, links.len(), i)));
        assert(t2.nodes@[i] == kernel_linked(b2[i], crate::runtime::self_linked(names, links, links.len(), i)));
    }
    assert forall|i: int| 0 <= i < t1.links@.len() implies (#[trigger] t1.links@[i])@.map_values(|l: InboundLink| inbound_view(l)) == t2.links@[i]@.map_values(|l: InboundLink| inbound_view(l)) by {
        assert(t1.links@[i]@.map_values(|l: InboundLink| inbound_view(l)) == crate::runtime::inbound_links(names, links, links.len(), i));
        assert(t2.links@[i]@.map_values(|l: InboundLink| inbound_view(l)) == crate::runtime::inbound_links(names, links, links.len(), i));
    }
    assert(t1.game_state.keys@ =~= t2.game_state.keys@);
    assert forall|k: int| 0 <= k < 4 implies t1.game_state.date[k] == t2.game_state.date[k] by {
        assert(t1.game_state.date@[k] == t2.game_state.date@[k]);
    }
    assert(t1.game_state.date =~= t2.game_state.date);
    lemma_creation_upto(cfg, b1, b2, data, cfg.len());
    assert(nodes_equiv(b1, b2));
    lemma_link_commands(b1, b2, names, links, links.len());
}


/// Execution determinism, input: engines that agree stay in agreement when both
/// see the same key event, or the same resize.
pub proof fn lemma_input_deterministic(
    a: GameToy,
    b: GameToy,
    key_code: u32,
    key_down: bool,
    a2: GameToy,
    b2: GameToy,
    w: u32,
    h: u32,
)
    requires
        engines_equiv(a, b),
    ensures
        key_applied(a, key_code, key_down, a2) && key_applied(b, key_code, key_down, b2) ==> engines_equiv(a2, b2),
        engines_equiv(
            GameToy { screen_width: w, screen_height: h, resolution_dirty: true, ..a },
            GameToy { screen_width: w, screen_height: h, resolution_dirty: true, ..b },
        ),
{
}

} // verus!
