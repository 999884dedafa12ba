//! Event subscriptions, one live token per logical slot.

use vstd::prelude::*;

verus! {

/// A logical event binding point of the browser.
#[derive(Clone, Copy, Debug, PartialEq, Eq, Structural)]
pub enum HandlerSlot {
    OnActivate,
    OnSelectionChanged,
    OnIndexClick,
}

/// The live tokens after `token` is bound at `slot`: it replaces whatever
/// was live there, and the other slots keep theirs.
pub open spec fn bound<T>(live: Map<HandlerSlot, T>, slot: HandlerSlot, token: T) -> Map<HandlerSlot, T> {
    live.insert(slot, token)
}

/// The token live at `slot`, if any: the one that binding or revoking there
/// hands back for revocation.
pub open spec fn live_at<T>(live: Map<HandlerSlot, T>, slot: HandlerSlot) -> Option<T> {
    if live.contains_key(slot) {
        Some(live[slot])
    } else {
        None
    }
}

/// The token of `slot`, if live, as a sequence of at most one.
pub open spec fn live_seq<T>(live: Map<HandlerSlot, T>, slot: HandlerSlot) -> Seq<T> {
    match live_at(live, slot) {
        Some(t) => seq![t],
        None => Seq::empty(),
    }
}

/// The live tokens in slot order: activation, selection change, index click.
pub open spec fn live_in_slot_order<T>(live: Map<HandlerSlot, T>) -> Seq<T> {
    live_seq(live, HandlerSlot::OnActivate) + live_seq(live, HandlerSlot::OnSelectionChanged)
        + live_seq(live, HandlerSlot::OnIndexClick)
}

/// The live subscription tokens, at most one for each slot. Binding a token
/// to a slot hands back the token it replaces, for the caller to revoke, so
/// subscriptions never pile up. A caller that revokes the slot's token
/// before subscribing anew, then binds, keeps the order revoke, then
/// register.
pub struct HandlerRegistry<T> {
    on_activate: Option<T>,
    on_selection_changed: Option<T>,
    on_index_click: Option<T>,
}

/// The token of one slot as a map entry.
pub open spec fn slot_map<T>(slot: HandlerSlot, t: Option<T>) -> Map<HandlerSlot, T> {
    match t {
        Some(x) => Map::empty().insert(slot, x),
        None => Map::empty(),
    }
}

impl<T> View for HandlerRegistry<T> {
    type V = Map<HandlerSlot, T>;

    closed spec fn view(&self) -> Map<HandlerSlot, T> {
        slot_map(HandlerSlot::OnActivate, self.on_activate).union_prefer_right(
            slot_map(HandlerSlot::OnSelectionChanged, self.on_selection_changed),
        ).union_prefer_right(slot_map(HandlerSlot::OnIndexClick, self.on_index_click))
    }
}

impl<T> HandlerRegistry<T> {
    /// A registry with no live token.
    pub fn new() -> (r: HandlerRegistry<T>)
        ensures
            r@ == Map::<HandlerSlot, T>::empty(),
    {
        let r = HandlerRegistry { on_activate: None, on_selection_changed: None, on_index_click: None };
        assert(r@ =~= Map::<HandlerSlot, T>::empty());
        r
    }

    /// The place of a slot's token.
    fn slot_mut(&mut self, slot: HandlerSlot) -> (r: &mut Option<T>)
        ensures
            *r == live_at(old(self)@, slot),
            final(self)@ == match *final(r) {
                Some(t) => old(self)@.insert(slot, t),
                None => old(self)@.remove(slot),
            },
    {
        match slot {
            HandlerSlot::OnActivate => &mut self.on_activate,
            HandlerSlot::OnSelectionChanged => &mut self.on_selection_changed,
            HandlerSlot::OnIndexClick => &mut self.on_index_click,
        }
    }

    /// Binds `token` at `slot`, handing back the token it replaces, which
    /// the caller revokes.
    pub fn bind(&mut self, slot: HandlerSlot, token: T) -> (revoked: Option<T>)
        ensures
            final(self)@ == bound(old(self)@, slot, token),
            revoked == live_at(old(self)@, slot),
    {
        let place = self.slot_mut(slot);
        let revoked = place.take();
        *place = Some(token);
        revoked
    }

    /// Takes the token live at `slot`, if any, for the caller to revoke.
    pub fn revoke(&mut self, slot: HandlerSlot) -> (revoked: Option<T>)
        ensures
            final(self)@ == old(self)@.remove(slot),
            revoked == live_at(old(self)@, slot),
    {
        let place = self.slot_mut(slot);
        place.take()
    }

    /// Takes every live token, in slot order, for the caller to revoke.
    pub fn revoke_all(&mut self) -> (revoked: Vec<T>)
        ensures
            final(self)@ == Map::<HandlerSlot, T>::empty(),
            revoked@ == live_in_slot_order(old(self)@),
    {
        let mut revoked: Vec<T> = Vec::new();
        if let Some(t) = self.revoke(HandlerSlot::OnActivate) {
            revoked.push(t);
        }
        if let Some(t) = self.revoke(HandlerSlot::OnSelectionChanged) {
            revoked.push(t);
        }
        if let Some(t) = self.revoke(HandlerSlot::OnIndexClick) {
            revoked.push(t);
        }
        assert(self@ =~= Map::<HandlerSlot, T>::empty());
        assert(revoked@ =~= live_in_slot_order(old(self)@));
        revoked
    }

    /// The token live at `slot`, if any.
    pub fn live_token(&self, slot: HandlerSlot) -> (r: Option<&T>)
        ensures
            r == match live_at(self@, slot) {
                Some(t) => Some(&t),
                None => None,
            },
    {
        match slot {
            HandlerSlot::OnActivate => self.on_activate.as_ref(),
            HandlerSlot::OnSelectionChanged => self.on_selection_changed.as_ref(),
            HandlerSlot::OnIndexClick => self.on_index_click.as_ref(),
        }
    }
}

/// Binding a second token at a slot where a first one was bound hands the
/// first back for revocation, and leaves exactly the second live there:
/// never none, never both. The other slots keep their tokens.
pub proof fn lemma_rebind_replaces<T>(live: Map<HandlerSlot, T>, slot: HandlerSlot, first: T, second: T)
    ensures
        live_at(bound(live, slot, first), slot) == Some(first),
        live_at(bound(bound(live, slot, first), slot, second), slot) == Some(second),
        forall|other: HandlerSlot|
            other != slot ==> #[trigger] live_at(bound(bound(live, slot, first), slot, second), other)
                == live_at(live, other),
{
}

} // verus!
