use vstd::prelude::*;
use crate::player::PlayerEntity;

verus! {

/// What a UI node shows.
#[derive(Clone, Copy, Debug, PartialEq, Eq, Structural)]
pub enum UiNodeKind {
    /// The "DEBUG MODE: IMMORTAL" overlay.
    DebugIndicator,
    /// Any other element, told apart by an id of the caller's.
    Other(u32),
}

/// A UI node. `cleanup` marks it for the sweep that clears transient UI
/// when the game leaves its current state.
#[derive(Clone, Copy, Debug, PartialEq, Eq, Structural)]
pub struct UiNode {
    pub kind: UiNodeKind,
    pub cleanup: bool,
}

/// The UI nodes that exist, in the order they were created.
#[derive(Debug)]
pub struct UiHost {
    pub nodes: Vec<UiNode>,
}

/// What one run of the overlay reconciliation did.
#[derive(Clone, Copy, Debug, PartialEq, Eq, Structural)]
pub enum OverlayChange {
    Created,
    Destroyed,
    Unchanged,
}

/// The text the debug overlay shows.
pub fn debug_indicator_text() -> (r: &'static str)
    ensures
        r@ == "DEBUG MODE: IMMORTAL"@,
{
    "DEBUG MODE: IMMORTAL"
}

pub open spec fn is_indicator(n: UiNode) -> bool {
    n.kind == UiNodeKind::DebugIndicator
}

/// The node that reconciliation creates: the overlay, marked for cleanup.
pub open spec fn indicator_node() -> UiNode {
    UiNode { kind: UiNodeKind::DebugIndicator, cleanup: true }
}

/// How many debug overlays are among `nodes`.
pub open spec fn indicator_count(nodes: Seq<UiNode>) -> nat
    decreases nodes.len(),
{
    if nodes.len() == 0 {
        0
    } else {
        indicator_count(nodes.drop_last()) + if is_indicator(nodes.last()) {
            1nat
        } else {
            0nat
        }
    }
}

pub open spec fn has_indicator(nodes: Seq<UiNode>) -> bool {
    indicator_count(nodes) > 0
}

/// `nodes` with every debug overlay removed, the rest in order.
pub open spec fn without_indicators(nodes: Seq<UiNode>) -> Seq<UiNode>
    decreases nodes.len(),
{
    if nodes.len() == 0 {
        nodes
    } else {
        let rest = without_indicators(nodes.drop_last());
        if is_indicator(nodes.last()) {
            rest
        } else {
            rest.push(nodes.last())
        }
    }
}

/// The nodes once the overlay's presence matches `want`: created if wanted
/// and absent, removed if present and unwanted, else left alone.
pub open spec fn synced(nodes: Seq<UiNode>, want: bool) -> Seq<UiNode> {
    if want {
        if has_indicator(nodes) {
            nodes
        } else {
            nodes.push(indicator_node())
        }
    } else {
        without_indicators(nodes)
    }
}

pub open spec fn sync_change(nodes: Seq<UiNode>, want: bool) -> OverlayChange {
    if want && !has_indicator(nodes) {
        OverlayChange::Created
    } else if !want && has_indicator(nodes) {
        OverlayChange::Destroyed
    } else {
        OverlayChange::Unchanged
    }
}

/// The nodes after reconciliation against `player`; without a player
/// nothing changes.
pub open spec fn ui_after(player: Option<PlayerEntity>, nodes: Seq<UiNode>) -> Seq<UiNode> {
    match player {
        Some(e) => synced(nodes, e.player@.debug_immortal),
        None => nodes,
    }
}

pub open spec fn ui_change(player: Option<PlayerEntity>, nodes: Seq<UiNode>) -> OverlayChange {
    match player {
        Some(e) => sync_change(nodes, e.player@.debug_immortal),
        None => OverlayChange::Unchanged,
    }
}

proof fn lemma_push_drop_last(nodes: Seq<UiNode>, n: UiNode)
    ensures
        nodes.push(n).drop_last() == nodes,
        nodes.push(n).last() == n,
{
    assert(nodes.push(n).drop_last() =~= nodes);
}

proof fn lemma_without_indicators_clean(nodes: Seq<UiNode>)
    ensures
        indicator_count(without_indicators(nodes)) == 0,
    decreases nodes.len(),
{
    if nodes.len() > 0 {
        let rest = without_indicators(nodes.drop_last());
        lemma_without_indicators_clean(nodes.drop_last());
        lemma_push_drop_last(rest, nodes.last());
    }
}

proof fn lemma_without_indicators_noop(nodes: Seq<UiNode>)
    requires
        indicator_count(nodes) == 0,
    ensures
        without_indicators(nodes) == nodes,
    decreases nodes.len(),
{
    if nodes.len() > 0 {
        lemma_without_indicators_noop(nodes.drop_last());
        assert(nodes.drop_last().push(nodes.last()) =~= nodes);
    }
}

impl UiHost {
    /// A UI with no nodes.
    pub fn new() -> (r: UiHost)
        ensures
            r.nodes@ == Seq::<UiNode>::empty(),
    {
        UiHost { nodes: Vec::new() }
    }

    /// Whether a debug overlay exists.
    pub fn has_debug_indicator(&self) -> (r: bool)
        ensures
            r == has_indicator(self.nodes@),
    {
        let mut count: usize = 0;
        let mut i: usize = 0;
        while i < self.nodes.len()
            invariant
                i <= self.nodes.len(),
                count == indicator_count(self.nodes@.take(i as int)),
                count <= i,
            decreases self.nodes.len() - i,
        {
            proof {
                assert(self.nodes@.take(i as int + 1).drop_last() == self.nodes@.take(i as int));
            }
            if self.nodes[i].kind == UiNodeKind::DebugIndicator {
                count = count + 1;
            }
            i = i + 1;
        }
        assert(self.nodes@.take(self.nodes.len() as int) == self.nodes@);
        count > 0
    }

    /// Creates a debug overlay, marked for cleanup, after the existing nodes.
    pub fn spawn_debug_indicator(&mut self)
        ensures
            final(self).nodes@ == old(self).nodes@.push(indicator_node()),
    {
        self.nodes.push(UiNode { kind: UiNodeKind::DebugIndicator, cleanup: true });
    }

    /// Removes every debug overlay; the other nodes stay, in order.
    pub fn despawn_debug_indicators(&mut self)
        ensures
            final(self).nodes@ == without_indicators(old(self).nodes@),
    {
        let mut kept: Vec<UiNode> = Vec::new();
        let mut i: usize = 0;
        while i < self.nodes.len()
            invariant
                i <= self.nodes.len(),
                kept@ == without_indicators(self.nodes@.take(i as int)),
            decreases self.nodes.len() - i,
        {
            proof {
                assert(self.nodes@.take(i as int + 1).drop_last() == self.nodes@.take(i as int));
            }
            let node = self.nodes[i];
            if node.kind != UiNodeKind::DebugIndicator {
                kept.push(node);
            }
            i = i + 1;
        }
        assert(self.nodes@.take(self.nodes.len() as int) == self.nodes@);
        self.nodes = kept;
    }
}

/// Makes the debug overlay's presence match the player's invulnerability:
/// creates it when the flag is on and none exists, removes it when the flag
/// is off and one exists, and otherwise does nothing. Without a player it
/// does nothing. Safe to run every frame.
pub fn update_ui(player: &Option<PlayerEntity>, ui: &mut UiHost) -> (change: OverlayChange)
    ensures
        final(ui).nodes@ == ui_after(*player, old(ui).nodes@),
        change == ui_change(*player, old(ui).nodes@),
{
    match player {
        Some(entity) => {
            let want = entity.player.is_debug_immortal();
            let present = ui.has_debug_indicator();
            if want && !present {
                ui.spawn_debug_indicator();
                OverlayChange::Created
            } else if !want && present {
                ui.despawn_debug_indicators();
                OverlayChange::Destroyed
            } else {
                if !want {
                    proof {
                        lemma_without_indicators_noop(old(ui).nodes@);
                    }
                }
                OverlayChange::Unchanged
            }
        },
        None => OverlayChange::Unchanged,
    }
}

/// Reconciling a second time, with the player unchanged, creates and
/// removes nothing, and never leaves more than one overlay where there was
/// at most one before.
pub proof fn lemma_update_ui_idempotent(player: Option<PlayerEntity>, nodes: Seq<UiNode>)
    ensures
        ui_after(player, ui_after(player, nodes)) == ui_after(player, nodes),
        ui_change(player, ui_after(player, nodes)) == OverlayChange::Unchanged,
        indicator_count(nodes) <= 1 ==> indicator_count(ui_after(player, nodes)) <= 1,
{
    if let Some(e) = player {
        if e.player@.debug_immortal {
            if !has_indicator(nodes) {
                lemma_push_drop_last(nodes, indicator_node());
            }
        } else {
            lemma_without_indicators_clean(nodes);
            lemma_without_indicators_noop(without_indicators(nodes));
        }
    }
}

} // verus!
