use crate::command::{commands_view, emit, CommandView, GlCommand, TextureId};
use crate::config_file::{Link, Node, ResolutionScalingMode};
use crate::gamedata::{GameData, GameDataError};
use crate::gamestate::{edges_cleared, has_edge, GameState, KEY_COUNT};
use crate::image::{image_commands, image_outcome, Image};
use crate::keyboard::{keyboard_bind_commands, keyboard_create_commands, Keyboard};
use crate::node::{kernel_input_count, kernel_input_index, kernel_name, kernel_output_texture, NodeError, NodeKernel};
use crate::node_info::node_name;
use crate::output::{output_create_commands, Output};
use crate::renderpass::{
    config_input_names, config_outputs_match, find_name, framebuffer_commands, name_index, program_of,
    render_pass_error, same_node_error, scaled_resolution, RenderPass, DEFAULT_SCREEN_HEIGHT,
    DEFAULT_SCREEN_WIDTH,
};
use crate::shader::{shader_text_result, VERTEX_SHADER};
use vstd::prelude::*;

verus! {

/// Why the full-screen quad could not be created. The device reports this.
#[derive(Debug)]
pub enum QuadError {
    BufferCreationFailed(String),
}

/// Why the engine could not be built, or a frame could not be rendered.
#[derive(Debug)]
pub enum GameToyError {
    /// The bundle could not be read.
    DataLoadError(GameDataError),
    /// The full-screen quad could not be created.
    QuadCreateError(QuadError),
    /// The named node could not be built.
    NodeCreateError(String, NodeError),
    /// Two nodes share this name.
    DuplicateNodeName(String),
    /// A link names a node that does not exist.
    NoSuchNodeName(String),
    /// A link into the named node reads an output slot its start node lacks.
    GetInputTextureFailed(String, NodeError),
    /// A link into the named node writes an input slot the node lacks.
    BindInputTextureFailed(String, NodeError),
    /// The named node could not prepare to read its own output.
    SelfReferenceSetupFailed(String, NodeError),
}

/// A link as its end node sees it: the index of the start node and both slots.
pub struct InboundLink {
    pub start: usize,
    pub start_output_slot: String,
    pub end_input_slot: String,
}

/// The running engine: the nodes in execution order, the links into each node,
/// the per-frame state and the screen size.
pub struct GameToy {
    pub game_state: GameState,
    pub nodes: Vec<NodeKernel>,
    /// `links[i]` holds the links that end at node `i`, in declared order.
    pub links: Vec<Vec<InboundLink>>,
    /// The last output node, if any.
    pub output_node: Option<usize>,
    /// Whether the output node draws to the screen.
    pub enable_output: bool,
    pub screen_width: u32,
    pub screen_height: u32,
    /// Set by a resize until the next frame passes the new size on.
    pub resolution_dirty: bool,
}

/// The name of a running node, as stored.
pub open spec fn kernel_name_string(k: NodeKernel) -> String {
    match k {
        NodeKernel::RenderPass(p) => p.name,
        NodeKernel::Image(n) => n.name,
        NodeKernel::Keyboard(n) => n.name,
        NodeKernel::Output(n) => n.name,
    }
}

/// Whether `b` is `a` after frames and resizes: only per-frame values differ.
pub open spec fn same_layout(a: NodeKernel, b: NodeKernel) -> bool {
    match (a, b) {
        (NodeKernel::RenderPass(p), NodeKernel::RenderPass(q)) => p.name == q.name && p.node == q.node
            && p.input_names == q.input_names && p.outputs == q.outputs && p.scaling == q.scaling,
        (NodeKernel::Image(x), NodeKernel::Image(y)) => x == y,
        (NodeKernel::Keyboard(x), NodeKernel::Keyboard(y)) => x == y,
        (NodeKernel::Output(x), NodeKernel::Output(y)) => x.name == y.name && x.node == y.node,
        _ => false,
    }
}

/// Why link `l` into node `i` cannot be followed.
pub open spec fn link_error(ns: Seq<NodeKernel>, i: int, l: InboundLink) -> Option<GameToyError> {
    if kernel_output_texture(ns[l.start as int], l.start_output_slot@) is None {
        Some(GameToyError::GetInputTextureFailed(kernel_name_string(ns[i]), NodeError::NoSuchOutputTexture(l.start_output_slot)))
    } else if kernel_input_index(ns[i], l.end_input_slot@) is None {
        Some(GameToyError::BindInputTextureFailed(kernel_name_string(ns[i]), NodeError::NoSuchInputTexture(l.end_input_slot)))
    } else {
        None
    }
}

/// The first error among the first `n` links into node `i`.
pub open spec fn links_error(ns: Seq<NodeKernel>, i: int, links: Seq<InboundLink>, n: nat) -> Option<GameToyError>
    decreases n,
{
    if n == 0 {
        None
    } else {
        match links_error(ns, i, links, (n - 1) as nat) {
            Some(e) => Some(e),
            None => link_error(ns, i, links[n - 1]),
        }
    }
}

/// The first error among the links into the first `n` nodes that run.
pub open spec fn nodes_error(ns: Seq<NodeKernel>, links: Seq<Vec<InboundLink>>, skip: Option<usize>, n: nat) -> Option<GameToyError>
    decreases n,
{
    if n == 0 {
        None
    } else {
        match nodes_error(ns, links, skip, (n - 1) as nat) {
            Some(e) => Some(e),
            None => if skip == Some((n - 1) as usize) {
                None
            } else {
                links_error(ns, n - 1, links[n - 1]@, links[n - 1]@.len())
            },
        }
    }
}

/// The textures bound to a node's inputs after following the first `n` links:
/// a later link into a slot wins over an earlier one.
pub open spec fn bound_inputs(ns: Seq<NodeKernel>, k: NodeKernel, links: Seq<InboundLink>, n: nat) -> Seq<Option<TextureId>>
    decreases n,
{
    if n == 0 {
        Seq::new(kernel_input_count(k), |j: int| None)
    } else {
        let prev = bound_inputs(ns, k, links, (n - 1) as nat);
        let l = links[n - 1];
        match (kernel_input_index(k, l.end_input_slot@), kernel_output_texture(ns[l.start as int], l.start_output_slot@)) {
            (Some(j), Some(t)) => prev.update(j, Some(t)),
            _ => prev,
        }
    }
}

/// The nodes and commands after node `i` runs.
pub open spec fn step_node(ns: Seq<NodeKernel>, links: Seq<InboundLink>, gs: GameState, i: int) -> (Seq<NodeKernel>, Seq<CommandView>) {
    let k = ns[i];
    let inputs = bound_inputs(ns, k, links, links.len());
    match k {
        NodeKernel::RenderPass(p) => (
            ns.update(i, NodeKernel::RenderPass(p.bound())),
            p.bind_commands(gs, inputs) + seq![CommandView::DrawQuad] + p.bound().post_draw_commands(),
        ),
        NodeKernel::Image(_) => (ns, seq![CommandView::DrawQuad]),
        NodeKernel::Keyboard(kb) => (ns, keyboard_bind_commands(kb.node, gs) + seq![CommandView::DrawQuad]),
        NodeKernel::Output(o) => (ns, o.bind_commands(inputs[0]) + seq![CommandView::DrawQuad]),
    }
}

/// The nodes and commands after the first `n` nodes that run have run, in order.
pub open spec fn run_nodes(ns: Seq<NodeKernel>, links: Seq<Vec<InboundLink>>, gs: GameState, skip: Option<usize>, n: nat) -> (Seq<NodeKernel>, Seq<CommandView>)
    decreases n,
{
    if n == 0 {
        (ns, seq![])
    } else {
        let (ms, cs) = run_nodes(ns, links, gs, skip, (n - 1) as nat);
        if skip == Some((n - 1) as usize) {
            (ms, cs)
        } else {
            let (ms2, cs2) = step_node(ms, links[n - 1]@, gs, n - 1);
            (ms2, cs + cs2)
        }
    }
}

/// A node after the screen became `w` by `h`.
pub open spec fn kernel_resized(k: NodeKernel, w: u32, h: u32) -> NodeKernel {
    match k {
        NodeKernel::RenderPass(p) => NodeKernel::RenderPass(p.resized(w, h)),
        NodeKernel::Output(o) => NodeKernel::Output(Output { width: w as u64, height: h as u64, ..o }),
        _ => k,
    }
}

/// The commands a node issues when the screen becomes `w` by `h`.
pub open spec fn kernel_resize_commands(k: NodeKernel, w: u32, h: u32) -> Seq<CommandView> {
    match k {
        NodeKernel::RenderPass(p) => p.resize_commands(w, h),
        _ => seq![],
    }
}

/// The first `n` nodes resized, the rest unchanged.
pub open spec fn resize_nodes(ns: Seq<NodeKernel>, w: u32, h: u32, n: nat) -> Seq<NodeKernel> {
    Seq::new(ns.len(), |i: int| if i < n { kernel_resized(ns[i], w, h) } else { ns[i] })
}

/// The commands of resizing the first `n` nodes, in order.
pub open spec fn resize_commands(ns: Seq<NodeKernel>, w: u32, h: u32, n: nat) -> Seq<CommandView>
    decreases n,
{
    if n == 0 {
        seq![]
    } else {
        resize_commands(ns, w, h, (n - 1) as nat) + kernel_resize_commands(ns[n - 1], w, h)
    }
}

/// Nodes keep their layout through frames and resizes.
pub open spec fn layouts_kept(a: Seq<NodeKernel>, b: Seq<NodeKernel>) -> bool {
    &&& a.len() == b.len()
    &&& forall|i: int| 0 <= i < a.len() ==> same_layout(#[trigger] a[i], b[i])
}

proof fn lemma_same_layout_facts(a: NodeKernel, b: NodeKernel, out_slot: Seq<char>, in_slot: Seq<char>)
    requires
        same_layout(a, b),
    ensures
        kernel_output_texture(a, out_slot) is Some <==> kernel_output_texture(b, out_slot) is Some,
        kernel_input_index(a, in_slot) == kernel_input_index(b, in_slot),
        kernel_input_count(a) == kernel_input_count(b),
        kernel_name(a) == kernel_name(b),
        kernel_name_string(a) == kernel_name_string(b),
{
}

proof fn lemma_links_error_none(ns: Seq<NodeKernel>, i: int, links: Seq<InboundLink>, n: nat, j: int)
    requires
        n <= links.len(),
        0 <= j < n,
        links_error(ns, i, links, n) is None,
    ensures
        link_error(ns, i, links[j]) is None,
    decreases n,
{
    if j < n - 1 {
        lemma_links_error_none(ns, i, links, (n - 1) as nat, j);
    }
}

proof fn lemma_nodes_error_none(ns: Seq<NodeKernel>, links: Seq<Vec<InboundLink>>, skip: Option<usize>, n: nat, i: int)
    requires
        0 <= i < n,
        nodes_error(ns, links, skip, n) is None,
        skip != Some(i as usize),
    ensures
        links_error(ns, i, links[i]@, links[i]@.len()) is None,
    decreases n,
{
    if i < n - 1 {
        lemma_nodes_error_none(ns, links, skip, (n - 1) as nat, i);
    }
}

/// Builds the input textures of node `i`: each link into it, in order, puts the
/// texture its start node shows into the slot it ends at.
fn collect_inputs(nodes: &Vec<NodeKernel>, i: usize, links: &Vec<InboundLink>) -> (r: Vec<Option<TextureId>>)
    requires
        i < nodes@.len(),
        forall|j: int| 0 <= j < links@.len() ==> (#[trigger] links@[j]).start < nodes@.len(),
        forall|j: int| 0 <= j < links@.len() ==> link_error(nodes@, i as int, #[trigger] links@[j]) is None,
    ensures
        r@ == bound_inputs(nodes@, nodes@[i as int], links@, links@.len()),
        r@.len() == kernel_input_count(nodes@[i as int]),
{
    let node = &nodes[i];
    let count = node.input_count();
    let mut inputs: Vec<Option<TextureId>> = Vec::new();
    let mut c: usize = 0;
    while c < count
        invariant
            c <= count,
            count == kernel_input_count(nodes@[i as int]),
            inputs@ == Seq::new(c as nat, |j: int| None::<TextureId>),
        decreases count - c,
    {
        inputs.push(None);
        c = c + 1;
        assert(inputs@ =~= Seq::new(c as nat, |j: int| None::<TextureId>));
    }
    let mut j: usize = 0;
    while j < links.len()
        invariant
            i < nodes@.len(),
            node == &nodes@[i as int],
            j <= links@.len(),
            forall|t: int| 0 <= t < links@.len() ==> (#[trigger] links@[t]).start < nodes@.len(),
            forall|t: int| 0 <= t < links@.len() ==> link_error(nodes@, i as int, #[trigger] links@[t]) is None,
            inputs@ == bound_inputs(nodes@, nodes@[i as int], links@, j as nat),
            inputs@.len() == kernel_input_count(nodes@[i as int]),
        decreases links@.len() - j,
    {
        let l = &links[j];
        assert(link_error(nodes@, i as int, links@[j as int]) is None);
        let t = nodes[l.start].get_output_texture(&l.start_output_slot);
        let slot = node.get_input_index(&l.end_input_slot);
        match (slot, t) {
            (Ok(s), Ok(t)) => {
                inputs.set(s, Some(t));
            },
            _ => {},
        }
        j = j + 1;
    }
    inputs
}

/// Whether two engine errors are the same error, comparing texts by their characters.
pub open spec fn same_toy_error(a: GameToyError, b: GameToyError) -> bool {
    match (a, b) {
        (GameToyError::NodeCreateError(n1, e1), GameToyError::NodeCreateError(n2, e2)) => n1@ == n2@
            && same_node_error(e1, e2),
        (GameToyError::DuplicateNodeName(x), GameToyError::DuplicateNodeName(y)) => x@ == y@,
        (GameToyError::NoSuchNodeName(x), GameToyError::NoSuchNodeName(y)) => x@ == y@,
        _ => false,
    }
}

/// The name of a configured node, as stored.
pub open spec fn config_name_string(n: Node) -> String {
    match n {
        Node::RenderPass(c) => c.name,
        Node::Image(c) => c.name,
        Node::Keyboard(c) => c.name,
        Node::Output(c) => c.name,
    }
}

/// The names of the configured nodes.
pub open spec fn config_names(nodes: Seq<Node>) -> Seq<Seq<char>> {
    nodes.map_values(|n: Node| node_name(n))
}

/// Why a configured node cannot be built, if it cannot.
pub open spec fn node_create_error(n: Node, data: GameData) -> Option<NodeError> {
    match n {
        Node::RenderPass(c) => render_pass_error(c, data),
        Node::Image(c) => match image_outcome(c, data) {
            Err(e) => Some(e),
            Ok(_) => None,
        },
        _ => None,
    }
}

/// The first error among the first `n` configured nodes: a node that cannot be
/// built, or whose name an earlier node has.
pub open spec fn node_phase_error(nodes: Seq<Node>, data: GameData, n: nat) -> Option<GameToyError>
    decreases n,
{
    if n == 0 {
        None
    } else {
        match node_phase_error(nodes, data, (n - 1) as nat) {
            Some(e) => Some(e),
            None => match node_create_error(nodes[n - 1], data) {
                Some(e) => Some(GameToyError::NodeCreateError(config_name_string(nodes[n - 1]), e)),
                None => if name_index(config_names(nodes.subrange(0, n - 1)), node_name(nodes[n - 1])) is Some {
                    Some(GameToyError::DuplicateNodeName(config_name_string(nodes[n - 1])))
                } else {
                    None
                },
            },
        }
    }
}

/// The first error among the first `n` links: a start or end node name that
/// names no node.
pub open spec fn link_phase_error(names: Seq<Seq<char>>, links: Seq<Link>, n: nat) -> Option<GameToyError>
    decreases n,
{
    if n == 0 {
        None
    } else {
        match link_phase_error(names, links, (n - 1) as nat) {
            Some(e) => Some(e),
            None => {
                let l = links[n - 1];
                if name_index(names, l.start_node@) is None {
                    Some(GameToyError::NoSuchNodeName(l.start_node))
                } else if name_index(names, l.end_node@) is None {
                    Some(GameToyError::NoSuchNodeName(l.end_node))
                } else {
                    None
                }
            },
        }
    }
}

/// Why the engine cannot be built from a project, if it cannot.
pub open spec fn build_error(data: GameData) -> Option<GameToyError> {
    let nodes = data.config_file.graph.nodes@;
    match node_phase_error(nodes, data, nodes.len()) {
        Some(e) => Some(e),
        None => link_phase_error(config_names(nodes), data.config_file.graph.links@, data.config_file.graph.links@.len()),
    }
}

/// Whether a running node is configured node `n`, built as node `i`, before any link.
pub open spec fn kernel_built(k: NodeKernel, n: Node, i: int) -> bool {
    match (k, n) {
        (NodeKernel::RenderPass(p), Node::RenderPass(c)) => {
            let (w, h) = scaled_resolution(c.resolution_scaling_mode, DEFAULT_SCREEN_WIDTH, DEFAULT_SCREEN_HEIGHT);
            &&& p.name@ == c.name@
            &&& p.node == i
            &&& p.scaling == c.resolution_scaling_mode
            &&& p.width == w
            &&& p.height == h
            &&& p.frame == 0
            &&& !p.double_buffered
            &&& p.input_names@.map_values(|s: String| s@) == config_input_names(c)
            &&& config_outputs_match(p.outputs@, c)
        },
        (NodeKernel::Image(x), Node::Image(c)) => x.name@ == c.name@ && x.node == i,
        (NodeKernel::Keyboard(x), Node::Keyboard(c)) => x.name@ == c.name@ && x.node == i,
        (NodeKernel::Output(x), Node::Output(c)) => x.name@ == c.name@ && x.node == i && x.width
            == DEFAULT_SCREEN_WIDTH && x.height == DEFAULT_SCREEN_HEIGHT,
        _ => false,
    }
}

/// The commands that build configured node `n` as running node `k`, node `i`.
pub open spec fn creation_commands(n: Node, k: NodeKernel, data: GameData, i: int) -> Seq<CommandView> {
    match (n, k) {
        (Node::RenderPass(c), NodeKernel::RenderPass(p)) => framebuffer_commands(i as usize, false, p.outputs@, p.scaling, p.width, p.height)
            + seq![CommandView::CreateProgram {
                program: program_of(i as usize),
                vertex_source: VERTEX_SHADER@,
                fragment_source: shader_text_result(c, data.shader_sources@)->Ok_0,
            }],
        (Node::Image(c), _) => match image_outcome(c, data) {
            Ok((f, w, h, px)) => image_commands(i as usize, f, w, h, px),
            Err(_) => seq![],
        },
        (Node::Keyboard(_), _) => keyboard_create_commands(i as usize),
        (Node::Output(_), _) => output_create_commands(i as usize),
        _ => seq![],
    }
}

/// The commands that build the first `n` nodes, in order.
pub open spec fn creation_commands_upto(nodes: Seq<Node>, ks: Seq<NodeKernel>, data: GameData, n: nat) -> Seq<CommandView>
    decreases n,
{
    if n == 0 {
        seq![]
    } else {
        creation_commands_upto(nodes, ks, data, (n - 1) as nat) + creation_commands(nodes[n - 1], ks[n - 1], data, n - 1)
    }
}

/// The index of the last output node among the first `n` nodes.
pub open spec fn last_output(nodes: Seq<Node>, n: nat) -> Option<usize>
    decreases n,
{
    if n == 0 {
        None
    } else if nodes[n - 1] is Output {
        Some((n - 1) as usize)
    } else {
        last_output(nodes, (n - 1) as nat)
    }
}

/// Whether link `l` starts and ends at node `j`.
pub open spec fn is_self_link(names: Seq<Seq<char>>, l: Link, j: int) -> bool {
    name_index(names, l.start_node@) == Some(j) && name_index(names, l.end_node@) == Some(j)
}

/// Whether one of the first `n` links starts and ends at node `j`.
pub open spec fn self_linked(names: Seq<Seq<char>>, links: Seq<Link>, n: nat, j: int) -> bool
    decreases n,
{
    n > 0 && (self_linked(names, links, (n - 1) as nat, j) || is_self_link(names, links[n - 1], j))
}

/// A built node after the links: a render pass one of them loops on is double buffered.
pub open spec fn kernel_linked(k: NodeKernel, looped: bool) -> NodeKernel {
    match k {
        NodeKernel::RenderPass(p) => NodeKernel::RenderPass(RenderPass { double_buffered: looped, ..p }),
        _ => k,
    }
}

/// The commands of the first `n` links: the first link that loops on a render
/// pass creates the pass's back set.
pub open spec fn link_commands(ks: Seq<NodeKernel>, names: Seq<Seq<char>>, links: Seq<Link>, n: nat) -> Seq<CommandView>
    decreases n,
{
    if n == 0 {
        seq![]
    } else {
        let l = links[n - 1];
        let prev = link_commands(ks, names, links, (n - 1) as nat);
        match name_index(names, l.start_node@) {
            Some(j) => if is_self_link(names, l, j) && !self_linked(names, links, (n - 1) as nat, j) {
                match ks[j] {
                    NodeKernel::RenderPass(p) => prev + p.back_set_commands(),
                    _ => prev,
                }
            } else {
                prev
            },
            None => prev,
        }
    }
}

/// A link into a node as start index and slot names.
pub open spec fn inbound_view(l: InboundLink) -> (usize, Seq<char>, Seq<char>) {
    (l.start, l.start_output_slot@, l.end_input_slot@)
}

/// The first `n` links that end at node `j`, in order, as start index and slot names.
pub open spec fn inbound_links(names: Seq<Seq<char>>, links: Seq<Link>, n: nat, j: int) -> Seq<(usize, Seq<char>, Seq<char>)>
    decreases n,
{
    if n == 0 {
        seq![]
    } else {
        let l = links[n - 1];
        let prev = inbound_links(names, links, (n - 1) as nat, j);
        if name_index(names, l.end_node@) == Some(j) {
            match name_index(names, l.start_node@) {
                Some(s) => prev.push((s as usize, l.start_output_slot@, l.end_input_slot@)),
                None => prev,
            }
        } else {
            prev
        }
    }
}

/// The size a running render pass or output node draws at.
pub open spec fn pass_size(k: NodeKernel) -> Option<(u64, u64)> {
    match k {
        NodeKernel::RenderPass(p) => Some((p.width, p.height)),
        NodeKernel::Output(o) => Some((o.width, o.height)),
        _ => None,
    }
}

proof fn lemma_run_keeps_sizes(ns: Seq<NodeKernel>, links: Seq<Vec<InboundLink>>, gs: GameState, skip: Option<usize>, n: nat)
    requires
        n <= ns.len(),
    ensures
        run_nodes(ns, links, gs, skip, n).0.len() == ns.len(),
        forall|j: int| 0 <= j < ns.len() ==> pass_size(#[trigger] run_nodes(ns, links, gs, skip, n).0[j]) == pass_size(ns[j]),
    decreases n,
{
    if n > 0 {
        lemma_run_keeps_sizes(ns, links, gs, skip, (n - 1) as nat);
    }
}

/// Resolution propagation: after a resize to `w` by `h`, the next frame leaves
/// every viewport-scaled pass at `floor(w * sx)` by `floor(h * sy)` and every
/// fixed pass at its size, and draws the output node at `w` by `h`; the frame
/// begins by reallocating the textures of the scaled passes at their new size.
pub proof fn lemma_resolution_propagation(t: GameToy, w: u32, h: u32, now: u64, i: int)
    requires
        0 <= i < t.nodes@.len(),
    ensures
        ({
            let t1 = GameToy { screen_width: w, screen_height: h, resolution_dirty: true, ..t };
            let p = t.nodes@[i]->RenderPass_0;
            &&& t.nodes@[i] is RenderPass ==> pass_size(t1.frame(now).0[i]) == Some(match p.scaling {
                ResolutionScalingMode::Fixed(_, _) => (p.width, p.height),
                ResolutionScalingMode::ViewportScale(sx, sy) => (sx.scaled(w as int) as u64, sy.scaled(h as int) as u64),
            })
            &&& t.nodes@[i] is Output ==> pass_size(t1.frame(now).0[i]) == Some((w as u64, h as u64))
            &&& t1.frame(now).1.subrange(0, t1.resize_step_commands().len() as int) == resize_commands(t.nodes@, w, h, t.nodes@.len())
        }),
{
    let t1 = GameToy { screen_width: w, screen_height: h, resolution_dirty: true, ..t };
    lemma_run_keeps_sizes(t1.resized_nodes(), t1.links@, t1.frame_game_state(now), t1.skipped_node(), t1.nodes@.len());
    let (ns, cs) = run_nodes(t1.resized_nodes(), t1.links@, t1.frame_game_state(now), t1.skipped_node(), t1.nodes@.len());
    assert(t1.frame(now).1.subrange(0, t1.resize_step_commands().len() as int) =~= t1.resize_step_commands());
}

/// Edge-row half-life: after any frame every edge entry is zero, and between
/// frames a key event sets an edge entry only for its own key, and only when it
/// changes whether that key is held. So an edge is seen by one frame at most.
pub proof fn lemma_edge_half_life(
    a: GameToy,
    now: u64,
    a2: GameToy,
    code: u32,
    down: bool,
    a3: GameToy,
    k: int,
)
    requires
        a.wf(),
        0 <= k < KEY_COUNT,
    ensures
        rendered(a, now, a2) ==> a2.game_state.keys@[256 + k] == 0,
        key_applied(a, code, down, a3) && a3.game_state.keys@[256 + k] != a.game_state.keys@[256 + k] ==> code
            == k && crate::gamestate::key_event_changes(a.game_state.keys@, k, down),
{
}

/// Unique names: an engine built from a project has pairwise distinct node names,
/// in the project and among its running nodes.
pub proof fn lemma_unique_names(
    data: GameData,
    enable_output: bool,
    t: GameToy,
    cmds: Seq<CommandView>,
    i: int,
    j: int,
)
    requires
        built(data, enable_output, t, cmds),
        0 <= i < j < t.nodes@.len(),
    ensures
        node_name(data.config_file.graph.nodes@[i]) != node_name(data.config_file.graph.nodes@[j]),
        kernel_name(t.nodes@[i]) != kernel_name(t.nodes@[j]),
{
}

/// Missing shader file: a render pass whose output slots are distinct and one of
/// whose shader paths names no file fails with `MissingResource` of the first such path.
pub proof fn lemma_missing_shader(c: crate::config_file::RenderPassConfig, data: GameData, k: int)
    requires
        crate::renderpass::first_duplicate(crate::renderpass::config_output_names(c)) is None,
        crate::shader::first_missing_source(data.shader_sources@, c.fragment_shader_paths@) == Some(k),
    ensures
        render_pass_error(c, data) == Some(NodeError::MissingResource(c.fragment_shader_paths@[k])),
{
}

proof fn lemma_node_phase_prefix(nodes: Seq<Node>, data: GameData, k: nat, e: GameToyError)
    requires
        k <= nodes.len(),
        node_phase_error(nodes, data, k) == Some(e),
    ensures
        node_phase_error(nodes, data, nodes.len()) == Some(e),
    decreases nodes.len() - k,
{
    if k < nodes.len() {
        lemma_node_phase_prefix(nodes, data, k + 1, e);
    }
}

proof fn lemma_link_phase_prefix(names: Seq<Seq<char>>, links: Seq<Link>, k: nat, e: GameToyError)
    requires
        k <= links.len(),
        link_phase_error(names, links, k) == Some(e),
    ensures
        link_phase_error(names, links, links.len()) == Some(e),
    decreases links.len() - k,
{
    if k < links.len() {
        lemma_link_phase_prefix(names, links, k + 1, e);
    }
}

proof fn lemma_creation_prefix(nodes: Seq<Node>, a: Seq<NodeKernel>, b: Seq<NodeKernel>, data: GameData, n: nat)
    requires
        n <= a.len(),
        n <= b.len(),
        forall|j: int| 0 <= j < n ==> a[j] == b[j],
    ensures
        creation_commands_upto(nodes, a, data, n) == creation_commands_upto(nodes, b, data, n),
    decreases n,
{
    if n > 0 {
        lemma_creation_prefix(nodes, a, b, data, (n - 1) as nat);
    }
}

/// Whether `after` is `before` once key `key_code` went down (`key_down`) or up.
pub open spec fn key_applied(before: GameToy, key_code: u32, key_down: bool, after: GameToy) -> bool {
    if key_code < KEY_COUNT {
        &&& after.game_state.keys@ == crate::gamestate::key_event_applied(before.game_state.keys@, key_code as int, key_down)
        &&& after.game_state.keys_dirty == (before.game_state.keys_dirty
            || crate::gamestate::key_event_changes(before.game_state.keys@, key_code as int, key_down))
        &&& after.game_state.time_since_start == before.game_state.time_since_start
        &&& after.game_state.time_delta == before.game_state.time_delta
        &&& after.game_state.date == before.game_state.date
        &&& after.game_state.prev_render_time == before.game_state.prev_render_time
        &&& after.nodes == before.nodes
        &&& after.links == before.links
        &&& after.output_node == before.output_node
        &&& after.enable_output == before.enable_output
        &&& after.screen_width == before.screen_width
        &&& after.screen_height == before.screen_height
        &&& after.resolution_dirty == before.resolution_dirty
    } else {
        after == before
    }
}

/// Whether `after` is the engine `before` becomes by rendering a frame at `now`.
pub open spec fn rendered(before: GameToy, now: u64, after: GameToy) -> bool {
    let (ns, cs) = before.frame(now);
    let gs = before.frame_game_state(now);
    &&& after.nodes@ == ns
    &&& after.links == before.links
    &&& after.output_node == before.output_node
    &&& after.enable_output == before.enable_output
    &&& after.screen_width == before.screen_width
    &&& after.screen_height == before.screen_height
    &&& !after.resolution_dirty
    &&& after.game_state.time_since_start == gs.time_since_start
    &&& after.game_state.time_delta == gs.time_delta
    &&& after.game_state.date == gs.date
    &&& after.game_state.prev_render_time == gs.prev_render_time
    &&& after.game_state.keys@ == edges_cleared(before.game_state.keys@)
    &&& after.game_state.keys_dirty == has_edge(before.game_state.keys@)
}

/// Whether `toy` and the command views `cmds` are what building from `data` gives.
pub open spec fn built(data: GameData, enable_output: bool, toy: GameToy, cmds: Seq<CommandView>) -> bool {
    let cfg = data.config_file.graph.nodes@;
    let links = data.config_file.graph.links@;
    let names = config_names(cfg);
    let bases = toy.nodes@.map_values(|k: NodeKernel| kernel_linked(k, false));
    &&& toy.wf()
    &&& forall|i: int, j: int| 0 <= i < j < cfg.len() ==> node_name(#[trigger] cfg[i]) != node_name(#[trigger] cfg[j])
    &&& toy.nodes@.len() == cfg.len()
    &&& forall|i: int| 0 <= i < cfg.len() ==> kernel_built(#[trigger] bases[i], cfg[i], i)
    &&& forall|i: int| 0 <= i < cfg.len() ==> #[trigger] toy.nodes@[i] == kernel_linked(bases[i], self_linked(names, links, links.len(), i))
    &&& forall|i: int| 0 <= i < cfg.len() ==> (#[trigger] toy.links@[i])@.map_values(|l: InboundLink| inbound_view(l)) == inbound_links(names, links, links.len(), i)
    &&& toy.output_node == last_output(cfg, cfg.len())
    &&& toy.enable_output == enable_output
    &&& toy.screen_width == DEFAULT_SCREEN_WIDTH
    &&& toy.screen_height == DEFAULT_SCREEN_HEIGHT
    &&& !toy.resolution_dirty
    &&& toy.game_state.time_since_start == 0
    &&& toy.game_state.time_delta == 0
    &&& toy.game_state.date@ == seq![0u32, 0, 0, 0]
    &&& toy.game_state.prev_render_time is None
    &&& !toy.game_state.keys_dirty
    &&& forall|t: int| 0 <= t < crate::gamestate::KEY_STATE_LEN ==> toy.game_state.keys@[t] == 0
    &&& cmds == seq![CommandView::CreateQuad]
        + creation_commands_upto(cfg, bases, data, cfg.len())
        + link_commands(bases, names, links, links.len())
        + if enable_output { seq![clear_color_command()] } else { seq![] }
}

impl GameToy {
    /// Builds the engine from a project and its files, with the output node
    /// drawing to the screen where `enable_output` holds. Returns the engine and
    /// the device commands that create its resources.
    ///
    /// The quad is created first. Each node is built in declared order, as node
    /// `i` for the `i`-th; the build fails on the first node that cannot be built
    /// or whose name an earlier node has. Each link is then resolved by name, in
    /// order, failing on the first start or end name that names no node; a link
    /// from a node to itself makes a render pass double buffered, creating its
    /// back set on the first such link.
    pub fn new(data: &GameData, enable_output: bool) -> (r: Result<(GameToy, Vec<GlCommand>), GameToyError>)
        ensures
            match build_error(*data) {
                Some(e) => r matches Err(f) && same_toy_error(f, e),
                None => r matches Ok((toy, cmds)) && built(*data, enable_output, toy, commands_view(cmds@)),
            },
    {
        let cfg = &data.config_file.graph.nodes;
        let mut out: Vec<GlCommand> = Vec::new();
        emit(&mut out, GlCommand::CreateQuad);
        let mut nodes: Vec<NodeKernel> = Vec::new();
        let mut names: Vec<String> = Vec::new();
        let mut links: Vec<Vec<InboundLink>> = Vec::new();
        let mut output_node: Option<usize> = None;
        let mut i: usize = 0;
        while i < cfg.len()
            invariant
                cfg == &data.config_file.graph.nodes,
                i <= cfg@.len(),
                nodes@.len() == i,
                names@.len() == i,
                links@.len() == i,
                forall|j: int| 0 <= j < i ==> kernel_built(#[trigger] nodes@[j], cfg@[j], j),
                forall|j: int| 0 <= j < i ==> (#[trigger] names@[j])@ == node_name(cfg@[j]),
                forall|j: int| 0 <= j < i ==> (#[trigger] links@[j])@.len() == 0,
                forall|a: int, b: int| 0 <= a < b < i ==> (#[trigger] names@[a])@ != (#[trigger] names@[b])@,
                node_phase_error(cfg@, *data, i as nat) is None,
                commands_view(out@) == seq![CommandView::CreateQuad] + creation_commands_upto(cfg@, nodes@, *data, i as nat),
                output_node == last_output(cfg@, i as nat),
            decreases cfg@.len() - i,
        {
            let ghost nodes_before = nodes@;
            let ghost names_prefix = config_names(cfg@.subrange(0, i as int));
            assert(names@.map_values(|s: String| s@) =~= names_prefix);
            let kernel = match &cfg[i] {
                Node::RenderPass(c) => match RenderPass::create_from_config(i, data, c, &mut out) {
                    Ok(p) => NodeKernel::RenderPass(p),
                    Err(e) => {
                        let err = GameToyError::NodeCreateError(c.name.clone(), e);
                        proof {
                            let spec_e = node_phase_error(cfg@, *data, i as nat + 1)->Some_0;
                            lemma_node_phase_prefix(cfg@, *data, i as nat + 1, spec_e);
                        }
                        return Err(err);
                    },
                },
                Node::Image(c) => match Image::create_from_config(i, data, c, &mut out) {
                    Ok(img) => NodeKernel::Image(img),
                    Err(e) => {
                        let err = GameToyError::NodeCreateError(c.name.clone(), e);
                        proof {
                            let spec_e = node_phase_error(cfg@, *data, i as nat + 1)->Some_0;
                            lemma_node_phase_prefix(cfg@, *data, i as nat + 1, spec_e);
                        }
                        return Err(err);
                    },
                },
                Node::Keyboard(c) => NodeKernel::Keyboard(Keyboard::create_from_config(i, c, &mut out)),
                Node::Output(c) => {
                    output_node = Some(i);
                    NodeKernel::Output(Output::create_from_config(i, c, &mut out))
                },
            };
            let name = kernel.get_name().clone();
            match find_name(&names, &name) {
                Some(_) => {
                    proof {
                        let spec_e = node_phase_error(cfg@, *data, i as nat + 1)->Some_0;
                        assert(cfg@.subrange(0, i as int) =~= cfg@.subrange(0, i + 1 - 1));
                        lemma_node_phase_prefix(cfg@, *data, i as nat + 1, spec_e);
                    }
                    return Err(GameToyError::DuplicateNodeName(name));
                },
                None => {},
            }
            proof {
                crate::renderpass::lemma_name_index_none(names@.map_values(|s: String| s@), name@);
                assert(cfg@.subrange(0, i as int) =~= cfg@.subrange(0, i + 1 - 1));
            }
            let ghost names_before = names@;
            names.push(name);
            nodes.push(kernel);
            links.push(Vec::new());
            proof {
                lemma_creation_prefix(cfg@, nodes_before, nodes@, *data, i as nat);
                assert forall|a: int, b: int| 0 <= a < b < i + 1 implies (#[trigger] names@[a])@ != (#[trigger] names@[b])@ by {
                    if b == i {
                        assert(names_before.map_values(|s: String| s@)[a] == names_before[a]@);
                        assert(names@[a] == names_before[a]);
                    }
                }
            }
            i = i + 1;
            assert(commands_view(out@) =~= seq![CommandView::CreateQuad] + creation_commands_upto(cfg@, nodes@, *data, i as nat));
        }
        assert(names@.map_values(|s: String| s@) =~= config_names(cfg@));
        assert forall|a: int, b: int| 0 <= a < b < cfg@.len() implies (#[trigger] config_names(cfg@)[a]) != (#[trigger] config_names(cfg@)[b]) by {
            assert(names@[a]@ == config_names(cfg@)[a]);
            assert(names@[b]@ == config_names(cfg@)[b]);
        }
        let ghost base = nodes@;
        let ghost head = commands_view(out@);
        assert(head == seq![CommandView::CreateQuad] + creation_commands_upto(cfg@, base, *data, cfg@.len()));
        let ghost names_v = config_names(cfg@);
        let cfg_links = &data.config_file.graph.links;
        let mut k: usize = 0;
        while k < cfg_links.len()
            invariant
                cfg == &data.config_file.graph.nodes,
                cfg_links == &data.config_file.graph.links,
                node_phase_error(cfg@, *data, cfg@.len()) is None,
                names_v == config_names(cfg@),
                names@.map_values(|s: String| s@) == names_v,
                forall|a: int, b: int| 0 <= a < b < cfg@.len() ==> (#[trigger] names_v[a]) != (#[trigger] names_v[b]),
                k <= cfg_links@.len(),
                nodes@.len() == cfg@.len(),
                links@.len() == cfg@.len(),
                base.len() == cfg@.len(),
                forall|j: int| 0 <= j < cfg@.len() ==> kernel_built(#[trigger] base[j], cfg@[j], j),
                forall|j: int| 0 <= j < cfg@.len() ==> #[trigger] nodes@[j] == kernel_linked(base[j], self_linked(names_v, cfg_links@, k as nat, j)),
                forall|j: int| 0 <= j < cfg@.len() ==> (#[trigger] links@[j])@.map_values(|l: InboundLink| inbound_view(l)) == inbound_links(names_v, cfg_links@, k as nat, j),
                forall|j: int, t: int| 0 <= j < cfg@.len() && 0 <= t < links@[j]@.len() ==> (#[trigger] links@[j]@[t]).start < cfg@.len(),
                link_phase_error(names_v, cfg_links@, k as nat) is None,
                commands_view(out@) == head + link_commands(base, names_v, cfg_links@, k as nat),
            decreases cfg_links@.len() - k,
        {
            let l = &cfg_links[k];
            let start = match find_name(&names, &l.start_node) {
                Some(s) => s,
                None => {
                    proof {
                        let spec_e = link_phase_error(names_v, cfg_links@, k as nat + 1)->Some_0;
                        lemma_link_phase_prefix(names_v, cfg_links@, k as nat + 1, spec_e);
                    }
                    return Err(GameToyError::NoSuchNodeName(l.start_node.clone()));
                },
            };
            let end = match find_name(&names, &l.end_node) {
                Some(e) => e,
                None => {
                    proof {
                        let spec_e = link_phase_error(names_v, cfg_links@, k as nat + 1)->Some_0;
                        lemma_link_phase_prefix(names_v, cfg_links@, k as nat + 1, spec_e);
                    }
                    return Err(GameToyError::NoSuchNodeName(l.end_node.clone()));
                },
            };
            proof {
                crate::renderpass::lemma_name_index_bounds(names_v, l.start_node@);
                crate::renderpass::lemma_name_index_bounds(names_v, l.end_node@);
            }
            let ghost nodes_before = nodes@;
            if start == end {
                let kn = nodes.remove(start);
                let kn2 = match kn {
                    NodeKernel::RenderPass(mut p) => {
                        p.set_up_self_reference(&mut out);
                        NodeKernel::RenderPass(p)
                    },
                    other => other,
                };
                nodes.insert(start, kn2);
            }
            let ghost links_before = links@;
            let mut list = links.remove(end);
            list.push(InboundLink { start, start_output_slot: l.start_output_slot.clone(), end_input_slot: l.end_input_slot.clone() });
            links.insert(end, list);
            proof {
                assert forall|j: int| 0 <= j < cfg@.len() implies #[trigger] nodes@[j] == kernel_linked(base[j], self_linked(names_v, cfg_links@, k as nat + 1, j)) by {
                    if start == end && j == start {
                        assert(nodes_before[j] == kernel_linked(base[j], self_linked(names_v, cfg_links@, k as nat, j)));
                    }
                }
                assert forall|j: int| 0 <= j < cfg@.len() implies (#[trigger] links@[j])@.map_values(|l: InboundLink| inbound_view(l)) == inbound_links(names_v, cfg_links@, k as nat + 1, j) by {
                    if j == end {
                        assert(links@[j]@.map_values(|l: InboundLink| inbound_view(l)) =~= links_before[j]@.map_values(|l: InboundLink| inbound_view(l)).push(inbound_view(links@[j]@.last())));
                    } else {
                        assert(links@[j] == links_before[j]);
                    }
                }
                assert forall|j: int, t: int| 0 <= j < cfg@.len() && 0 <= t < links@[j]@.len() implies (#[trigger] links@[j]@[t]).start < cfg@.len() by {
                    if j == end && t < links_before[j]@.len() {
                        assert(links@[j]@[t] == links_before[j]@[t]);
                    } else if j != end {
                        assert(links@[j] == links_before[j]);
                    }
                }
                assert(commands_view(out@) =~= head + link_commands(base, names_v, cfg_links@, k as nat + 1));
            }
            k = k + 1;
        }
        let ghost linked = commands_view(out@);
        assert(linked == head + link_commands(base, names_v, cfg_links@, cfg_links@.len()));
        if enable_output {
            emit(&mut out, GlCommand::ClearColor { red: 0, green: 255, blue: 255, alpha: 255 });
        }
        assert(commands_view(out@) == linked + if enable_output { seq![clear_color_command()] } else { seq![] });
        let toy = GameToy {
            game_state: GameState::new(),
            nodes,
            links,
            output_node,
            enable_output,
            screen_width: DEFAULT_SCREEN_WIDTH,
            screen_height: DEFAULT_SCREEN_HEIGHT,
            resolution_dirty: false,
        };
        proof {
            let bases = toy.nodes@.map_values(|k: NodeKernel| kernel_linked(k, false));
            assert forall|j: int| 0 <= j < cfg@.len() implies bases[j] == base[j] by {}
            assert(bases =~= base);
            assert forall|a: int, b: int| 0 <= a < b < cfg@.len() implies node_name(#[trigger] cfg@[a]) != node_name(#[trigger] cfg@[b]) by {
                assert(names_v[a] == node_name(cfg@[a]));
                assert(names_v[b] == node_name(cfg@[b]));
            }
            assert forall|a: int, b: int| 0 <= a < b < toy.nodes@.len() implies kernel_name(#[trigger] toy.nodes@[a]) != kernel_name(#[trigger] toy.nodes@[b]) by {
                assert(names_v[a] == node_name(cfg@[a]));
                assert(names_v[b] == node_name(cfg@[b]));
            }
        }
        assert(built(*data, enable_output, toy, commands_view(out@)));
        Ok((toy, out))
    }
}

/// The command that sets the screen's clear color, cyan, while output is enabled.
pub open spec fn clear_color_command() -> CommandView {
    CommandView::ClearColor { red: 0, green: 255, blue: 255, alpha: 255 }
}

impl GameToy {
    /// Links point at existing nodes, one link list per node, and the key rows are whole.
    pub open spec fn wf(&self) -> bool {
        &&& self.game_state.wf()
        &&& self.links@.len() == self.nodes@.len()
        &&& forall|i: int, j: int|
            0 <= i < self.links@.len() && 0 <= j < self.links@[i]@.len() ==> (#[trigger] self.links@[i]@[j]).start
                < self.nodes@.len()
        &&& forall|i: int, j: int|
            0 <= i < j < self.nodes@.len() ==> kernel_name(#[trigger] self.nodes@[i]) != kernel_name(#[trigger] self.nodes@[j])
    }

    /// The node skipped because output is disabled, if any.
    pub open spec fn skipped_node(&self) -> Option<usize> {
        if self.enable_output {
            None
        } else {
            self.output_node
        }
    }

    /// Why the next frame cannot be rendered, if it cannot.
    pub open spec fn frame_error(&self) -> Option<GameToyError> {
        nodes_error(self.nodes@, self.links@, self.skipped_node(), self.nodes@.len())
    }

    /// The per-frame state a frame at `now` starts from.
    pub open spec fn frame_game_state(&self, now: u64) -> GameState {
        self.game_state.times_updated(now)
    }

    /// The nodes after the resize step of a frame.
    pub open spec fn resized_nodes(&self) -> Seq<NodeKernel> {
        if self.resolution_dirty {
            resize_nodes(self.nodes@, self.screen_width, self.screen_height, self.nodes@.len())
        } else {
            self.nodes@
        }
    }

    /// The commands of the resize step of a frame.
    pub open spec fn resize_step_commands(&self) -> Seq<CommandView> {
        if self.resolution_dirty {
            resize_commands(self.nodes@, self.screen_width, self.screen_height, self.nodes@.len())
        } else {
            seq![]
        }
    }

    /// The nodes and the commands of a frame at `now`.
    pub open spec fn frame(&self, now: u64) -> (Seq<NodeKernel>, Seq<CommandView>) {
        let (ns, cs) = run_nodes(self.resized_nodes(), self.links@, self.frame_game_state(now), self.skipped_node(), self.nodes@.len());
        (ns, self.resize_step_commands() + cs)
    }

    /// Records a new screen size; the next frame passes it on to the nodes.
    pub fn resize(&mut self, x_pixels: u32, y_pixels: u32)
        ensures
            *final(self) == (GameToy { screen_width: x_pixels, screen_height: y_pixels, resolution_dirty: true, ..*old(self) }),
    {
        self.screen_width = x_pixels;
        self.screen_height = y_pixels;
        self.resolution_dirty = true;
    }

    /// Records that a key went down (`key_down`) or up. Key codes follow the web
    /// platform's `KeyboardEvent.which`; codes from 256 on have no texel and are ignored.
    pub fn set_key_state(&mut self, key_code: u32, key_down: bool)
        requires
            old(self).wf(),
        ensures
            final(self).wf(),
            key_applied(*old(self), key_code, key_down, *final(self)),
    {
        if (key_code as usize) < KEY_COUNT {
            self.game_state.set_key_state(key_code as usize, key_down);
        }
    }

    /// Passes the new screen size on to every node.
    fn update_resolutions(&mut self, out: &mut Vec<GlCommand>)
        requires
            old(self).resolution_dirty,
        ensures
            final(self).nodes@ == old(self).resized_nodes(),
            commands_view(final(out)@) == commands_view(old(out)@) + old(self).resize_step_commands(),
            *final(self) == (GameToy { nodes: final(self).nodes, ..*old(self) }),
    {
        let ghost old_nodes = self.nodes@;
        let w = self.screen_width;
        let h = self.screen_height;
        let ghost head = commands_view(out@);
        let mut i: usize = 0;
        while i < self.nodes.len()
            invariant
                old_nodes == old(self).nodes@,
                w == old(self).screen_width,
                h == old(self).screen_height,
                i <= self.nodes@.len(),
                self.nodes@.len() == old_nodes.len(),
                self.nodes@ == resize_nodes(old_nodes, w, h, i as nat),
                commands_view(out@) == head + resize_commands(old_nodes, w, h, i as nat),
                *self == (GameToy { nodes: self.nodes, ..*old(self) }),
            decreases self.nodes@.len() - i,
        {
            let k = self.nodes.remove(i);
            assert(k == old_nodes[i as int]);
            let k2 = match k {
                NodeKernel::RenderPass(mut p) => {
                    p.update_resolution(w, h, out);
                    NodeKernel::RenderPass(p)
                },
                NodeKernel::Output(mut o) => {
                    o.update_resolution(w, h);
                    NodeKernel::Output(o)
                },
                other => other,
            };
            assert(commands_view(out@) =~= head + resize_commands(old_nodes, w, h, i as nat + 1));
            self.nodes.insert(i, k2);
            i = i + 1;
            assert(self.nodes@ =~= resize_nodes(old_nodes, w, h, i as nat));
        }
    }

    /// Renders one frame at `now`, microseconds since the Unix epoch, and returns
    /// the device commands of the frame.
    ///
    /// Where a link of a node that runs cannot be followed, the frame is not
    /// rendered: the error is returned and nothing changes. Otherwise the clock
    /// advances; a pending resize reaches every node; each node runs in declared
    /// order (the output node only while output is enabled): its inputs are bound
    /// from its links, it binds, the quad is drawn, and it finishes the draw.
    /// Last, the key rows' edge row is cleared.
    pub fn render(&mut self, now: u64) -> (r: Result<Vec<GlCommand>, GameToyError>)
        requires
            old(self).wf(),
        ensures
            final(self).wf(),
            match old(self).frame_error() {
                Some(e) => r == Err::<Vec<GlCommand>, GameToyError>(e) && *final(self) == *old(self),
                None => r matches Ok(cmds) && commands_view(cmds@) == old(self).frame(now).1 && rendered(*old(self), now, *final(self)),
            },
    {
        match self.check_links() {
            Some(e) => {
                return Err(e);
            },
            None => {},
        }
        let ghost start = *self;
        let mut out: Vec<GlCommand> = Vec::new();
        self.game_state.update_times(now);
        if self.resolution_dirty {
            self.update_resolutions(&mut out);
        }
        let ghost resized = self.nodes@;
        assert(resized == start.resized_nodes());
        proof {
            assert forall|t: int| 0 <= t < start.nodes@.len() implies same_layout(#[trigger] start.nodes@[t], resized[t]) by {}
        }
        let ghost head = commands_view(out@);
        let skip = if self.enable_output { None } else { self.output_node };
        let mut i: usize = 0;
        while i < self.nodes.len()
            invariant
                start.wf(),
                start.frame_error() is None,
                skip == start.skipped_node(),
                i <= self.nodes@.len(),
                self.game_state == start.frame_game_state(now),
                self.links == start.links,
                self.nodes@.len() == start.nodes@.len(),
                layouts_kept(start.nodes@, self.nodes@),
                (self.nodes@, commands_view(out@)) == ({
                    let (ns, cs) = run_nodes(resized, start.links@, start.frame_game_state(now), skip, i as nat);
                    (ns, head + cs)
                }),
                resized.len() == start.nodes@.len(),
                self.output_node == start.output_node,
                self.enable_output == start.enable_output,
                self.screen_width == start.screen_width,
                self.screen_height == start.screen_height,
            decreases self.nodes@.len() - i,
        {
            if skip != Some(i) {
                proof {
                    lemma_nodes_error_none(start.nodes@, start.links@, skip, start.nodes@.len(), i as int);
                    assert forall|t: int| 0 <= t < self.links@[i as int]@.len() implies link_error(self.nodes@, i as int, #[trigger] self.links@[i as int]@[t]) is None by {
                        let l = self.links@[i as int]@[t];
                        lemma_links_error_none(start.nodes@, i as int, start.links@[i as int]@, start.links@[i as int]@.len(), t);
                        assert(l.start < start.nodes@.len());
                        lemma_same_layout_facts(start.nodes@[l.start as int], self.nodes@[l.start as int], l.start_output_slot@, l.end_input_slot@);
                        lemma_same_layout_facts(start.nodes@[i as int], self.nodes@[i as int], l.start_output_slot@, l.end_input_slot@);
                    }
                }
                let inputs = collect_inputs(&self.nodes, i, &self.links[i]);
                let ghost before = self.nodes@;
                let ghost cmds_before = out@;
                let k = self.nodes.remove(i);
                assert(k == before[i as int]);
                let k2 = match k {
                    NodeKernel::RenderPass(mut p) => {
                        p.bind(&self.game_state, &inputs, &mut out);
                        emit(&mut out, GlCommand::DrawQuad);
                        p.post_draw(&mut out);
                        NodeKernel::RenderPass(p)
                    },
                    NodeKernel::Image(n) => {
                        emit(&mut out, GlCommand::DrawQuad);
                        NodeKernel::Image(n)
                    },
                    NodeKernel::Keyboard(kb) => {
                        kb.bind(&self.game_state, &mut out);
                        emit(&mut out, GlCommand::DrawQuad);
                        NodeKernel::Keyboard(kb)
                    },
                    NodeKernel::Output(o) => {
                        o.bind(inputs[0], &mut out);
                        emit(&mut out, GlCommand::DrawQuad);
                        NodeKernel::Output(o)
                    },
                };
                self.nodes.insert(i, k2);
                proof {
                    let step = step_node(before, self.links@[i as int]@, self.game_state, i as int);
                    assert(self.nodes@ =~= step.0);
                    assert(commands_view(out@) =~= commands_view(cmds_before) + step.1);
                    assert forall|t: int| 0 <= t < start.nodes@.len() implies same_layout(#[trigger] start.nodes@[t], self.nodes@[t]) by {
                        assert(same_layout(start.nodes@[t], before[t]));
                    }
                }
            }
            i = i + 1;
        }
        self.resolution_dirty = false;
        self.game_state.clear_keys_dirty();
        self.game_state.update_key_tick();
        proof {
            assert forall|a: int, b: int| 0 <= a < b < self.nodes@.len() implies kernel_name(#[trigger] self.nodes@[a]) != kernel_name(#[trigger] self.nodes@[b]) by {
                lemma_same_layout_facts(start.nodes@[a], self.nodes@[a], seq![], seq![]);
                lemma_same_layout_facts(start.nodes@[b], self.nodes@[b], seq![], seq![]);
            }
        }
        Ok(out)
    }

    /// Returns why the next frame cannot be rendered, checking the links into
    /// each node that runs in order: first the start node's output slot, then
    /// the end node's input slot.
    fn check_links(&self) -> (r: Option<GameToyError>)
        requires
            self.wf(),
        ensures
            r == self.frame_error(),
    {
        let skip = if self.enable_output { None } else { self.output_node };
        let mut i: usize = 0;
        while i < self.nodes.len()
            invariant
                self.wf(),
                i <= self.nodes@.len(),
                skip == self.skipped_node(),
                nodes_error(self.nodes@, self.links@, skip, i as nat) is None,
            decreases self.nodes@.len() - i,
        {
            if skip != Some(i) {
                let links = &self.links[i];
                let mut j: usize = 0;
                while j < links.len()
                    invariant
                        self.wf(),
                        i < self.nodes@.len(),
                        links == &self.links@[i as int],
                        j <= links@.len(),
                        skip == self.skipped_node(),
                        skip != Some(i),
                        nodes_error(self.nodes@, self.links@, skip, i as nat) is None,
                        links_error(self.nodes@, i as int, links@, j as nat) is None,
                    decreases links@.len() - j,
                {
                    let l = &links[j];
                    assert(self.links@[i as int]@[j as int].start < self.nodes@.len());
                    match self.nodes[l.start].get_output_texture(&l.start_output_slot) {
                        Ok(_) => {},
                        Err(_) => {
                            let e = GameToyError::GetInputTextureFailed(
                                self.nodes[i].get_name().clone(),
                                NodeError::NoSuchOutputTexture(l.start_output_slot.clone()),
                            );
                            proof {
                                lemma_links_error_prefix(self.nodes@, i as int, links@, j as nat + 1, e);
                                lemma_nodes_error_at(self.nodes@, self.links@, skip, i as nat, e);
                            }
                            return Some(e);
                        },
                    }
                    match self.nodes[i].get_input_index(&l.end_input_slot) {
                        Ok(_) => {},
                        Err(_) => {
                            let e = GameToyError::BindInputTextureFailed(
                                self.nodes[i].get_name().clone(),
                                NodeError::NoSuchInputTexture(l.end_input_slot.clone()),
                            );
                            proof {
                                lemma_links_error_prefix(self.nodes@, i as int, links@, j as nat + 1, e);
                                lemma_nodes_error_at(self.nodes@, self.links@, skip, i as nat, e);
                            }
                            return Some(e);
                        },
                    }
                    j = j + 1;
                }
            }
            i = i + 1;
        }
        None
    }
}

proof fn lemma_links_error_prefix(ns: Seq<NodeKernel>, i: int, links: Seq<InboundLink>, n: nat, e: GameToyError)
    requires
        n <= links.len(),
        links_error(ns, i, links, n) == Some(e),
    ensures
        links_error(ns, i, links, links.len()) == Some(e),
    decreases links.len() - n,
{
    if n < links.len() {
        lemma_links_error_prefix(ns, i, links, n + 1, e);
    }
}

proof fn lemma_nodes_error_at(ns: Seq<NodeKernel>, links: Seq<Vec<InboundLink>>, skip: Option<usize>, i: nat, e: GameToyError)
    requires
        i < ns.len(),
        links.len() == ns.len(),
        skip != Some(i as usize),
        nodes_error(ns, links, skip, i) is None,
        links_error(ns, i as int, links[i as int]@, links[i as int]@.len()) == Some(e),
    ensures
        nodes_error(ns, links, skip, ns.len()) == Some(e),
{
    lemma_nodes_error_prefix(ns, links, skip, i + 1, e);
}

proof fn lemma_nodes_error_prefix(ns: Seq<NodeKernel>, links: Seq<Vec<InboundLink>>, skip: Option<usize>, n: nat, e: GameToyError)
    requires
        n <= ns.len(),
        nodes_error(ns, links, skip, n) == Some(e),
    ensures
        nodes_error(ns, links, skip, ns.len()) == Some(e),
    decreases ns.len() - n,
{
    if n < ns.len() {
        lemma_nodes_error_prefix(ns, links, skip, n + 1, e);
    }
}

} // verus!
