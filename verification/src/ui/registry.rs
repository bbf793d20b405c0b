use vstd::prelude::*;

use crate::numbers_issued;
use crate::ui::terminal::placed;
use crate::ui::terminal::TerminalModel;
use crate::ui::terminal::ZohaTerminal;

verus! {

/// Why an operation on the tabs was abandoned. Whenever one of these is
/// reported, the tabs are left as they were.
#[derive(Debug, Clone, Copy, PartialEq, Eq, Structural)]
pub enum TabError {
    /// A position was named at which no tab stands.
    PositionOutOfRange,
    /// A tab that has the focus was asked for while no tab is open.
    EmptyRegistryOperation,
    /// The process of a new terminal could not be started.
    SpawnFailure,
    /// The window or its notebook has not been set up yet.
    MissingContainerCollaborator,
    /// A window was set where one is set already.
    WindowAlreadySet,
}

/// The terminals of `s`, each as it stands at its index in `s`.
pub open spec fn renumbered(s: Seq<TerminalModel>, max: Option<i8>) -> Seq<TerminalModel> {
    Seq::new(s.len(), |i: int| placed(s[i], i as u32, max))
}

/// Every terminal of `s` holds its own index as its position, and the title
/// that belongs to it there.
pub open spec fn in_order(s: Seq<TerminalModel>, max: Option<i8>) -> bool {
    &&& s.len() <= u32::MAX
    &&& forall|i: int| 0 <= i < s.len() ==> #[trigger] s[i] == placed(s[i], i as u32, max)
}

/// The numbers of the terminals of `s`, in the order of their positions.
pub open spec fn tab_numbers(s: Seq<TerminalModel>) -> Seq<u64> {
    Seq::new(s.len(), |i: int| s[i].tab_counter)
}

/// The open tabs of a window, in the order in which the window shows them.
///
/// The tab at index `i` holds `i` as its position: positions are always
/// `0, 1, ..., len - 1`, without gaps or repeats.
pub struct Terminals {
    items: Vec<ZohaTerminal>,
    max_location_chars: Option<i8>,
}

impl View for Terminals {
    type V = Seq<TerminalModel>;

    closed spec fn view(&self) -> Seq<TerminalModel> {
        Seq::new(self.items@.len(), |i: int| self.items@[i]@)
    }
}

impl Terminals {
    /// The limit on the working directory that the titles are made with.
    pub closed spec fn max_chars(&self) -> Option<i8> {
        self.max_location_chars
    }

    /// The tabs are in order, each with the title that belongs to it.
    pub open spec fn wf(&self) -> bool {
        in_order(self@, self.max_chars())
    }

    /// No tabs, with titles to be cut as `max_location_chars` asks.
    pub fn new(max_location_chars: Option<i8>) -> (terminals: Self)
        ensures
            terminals.wf(),
            terminals@ == Seq::<TerminalModel>::empty(),
            terminals.max_chars() == max_location_chars,
    {
        let terminals = Terminals { items: Vec::new(), max_location_chars };
        assert(terminals@ =~= Seq::<TerminalModel>::empty());
        terminals
    }

    /// The number of open tabs.
    pub fn len(&self) -> (n: u32)
        requires
            self.wf(),
        ensures
            n == self@.len(),
    {
        self.items.len() as u32
    }

    /// Whether no tab is open.
    pub fn is_empty(&self) -> (empty: bool)
        ensures
            empty == (self@.len() == 0),
    {
        self.items.len() == 0
    }

    /// The tab at `position`, if there is one.
    pub fn lookup_by_position(&self, position: u32) -> (found: Option<&ZohaTerminal>)
        ensures
            match found {
                Some(term) => position < self@.len() && term@ == self@[position as int],
                None => position >= self@.len(),
            },
    {
        if (position as usize) < self.items.len() {
            Some(&self.items[position as usize])
        } else {
            None
        }
    }

    /// The position of the tab whose terminal has the number `identity`:
    /// the first such position, and `None` exactly when no open tab has that
    /// number.
    pub fn lookup_by_identity(&self, identity: u64) -> (found: Option<u32>)
        requires
            self.wf(),
        ensures
            match found {
                Some(position) => {
                    &&& position < self@.len()
                    &&& self@[position as int].tab_counter == identity
                    &&& forall|i: int| 0 <= i < position ==> self@[i].tab_counter != identity
                },
                None => forall|i: int| 0 <= i < self@.len() ==> self@[i].tab_counter != identity,
            },
    {
        let mut i: usize = 0;
        while i < self.items.len()
            invariant
                i <= self.items@.len(),
                self.wf(),
                forall|j: int| 0 <= j < i ==> self@[j].tab_counter != identity,
            decreases self.items@.len() - i,
        {
            if self.items[i].tab_counter == identity {
                return Some(i as u32);
            }
            i += 1;
        }
        None
    }

    /// Puts `session` at `position` and moves every tab from there on one
    /// place up. The new tab and the tabs that moved get the position and
    /// the title of their new place. A position behind the place after the
    /// last tab is refused.
    ///
    /// There has to be room for the tab: positions are 32-bit numbers.
    pub fn insert_at(&mut self, position: u32, session: ZohaTerminal) -> (done: Result<(), TabError>)
        requires
            old(self).wf(),
            old(self)@.len() < u32::MAX,
        ensures
            final(self).wf(),
            final(self).max_chars() == old(self).max_chars(),
            match done {
                Ok(_) => {
                    &&& position <= old(self)@.len()
                    &&& final(self)@ == renumbered(
                        old(self)@.insert(position as int, session@),
                        old(self).max_chars(),
                    )
                },
                Err(e) => {
                    &&& e == TabError::PositionOutOfRange
                    &&& position > old(self)@.len()
                    &&& *final(self) == *old(self)
                },
            },
    {
        if position as usize > self.items.len() {
            return Err(TabError::PositionOutOfRange);
        }
        let ghost before = self@;
        let ghost moved = before.insert(position as int, session@);
        self.items.insert(position as usize, session);
        let n: usize = self.items.len();
        assert(self@ =~= moved);
        self.relabel(position as usize, n);
        assert(self@ =~= renumbered(moved, self.max_chars()));
        Ok(())
    }

    /// Takes the tab at `position` out and moves every later tab one place
    /// down, so that no gap is left. The tabs that moved get the position and
    /// the title of their new place.
    pub fn remove(&mut self, position: u32) -> (taken: Result<ZohaTerminal, TabError>)
        requires
            old(self).wf(),
        ensures
            final(self).wf(),
            final(self).max_chars() == old(self).max_chars(),
            match taken {
                Ok(term) => {
                    &&& position < old(self)@.len()
                    &&& term@ == old(self)@[position as int]
                    &&& final(self)@ == renumbered(
                        old(self)@.remove(position as int),
                        old(self).max_chars(),
                    )
                },
                Err(e) => {
                    &&& e == TabError::PositionOutOfRange
                    &&& position >= old(self)@.len()
                    &&& *final(self) == *old(self)
                },
            },
    {
        if position as usize >= self.items.len() {
            return Err(TabError::PositionOutOfRange);
        }
        let ghost before = self@;
        let ghost rest = before.remove(position as int);
        let term = self.items.remove(position as usize);
        let n: usize = self.items.len();
        assert(self@ =~= rest);
        self.relabel(position as usize, n);
        assert(self@ =~= renumbered(rest, self.max_chars()));
        Ok(term)
    }

    /// Moves the tab at `old_position` to `new_position`. The tabs between
    /// the two places each move one place towards the place that the tab
    /// left: a rotation, not a swap. Every tab that moved gets the position
    /// and the title of its new place.
    pub fn reorder(&mut self, old_position: u32, new_position: u32) -> (done: Result<(), TabError>)
        requires
            old(self).wf(),
        ensures
            final(self).wf(),
            final(self).max_chars() == old(self).max_chars(),
            match done {
                Ok(_) => {
                    &&& old_position < old(self)@.len()
                    &&& new_position < old(self)@.len()
                    &&& final(self)@ == renumbered(
                        rotated(old(self)@, old_position as int, new_position as int),
                        old(self).max_chars(),
                    )
                },
                Err(e) => {
                    &&& e == TabError::PositionOutOfRange
                    &&& (old_position >= old(self)@.len() || new_position >= old(self)@.len())
                    &&& *final(self) == *old(self)
                },
            },
    {
        let n: usize = self.items.len();
        if old_position as usize >= n || new_position as usize >= n {
            return Err(TabError::PositionOutOfRange);
        }
        let ghost before = self@;
        let ghost turned = rotated(before, old_position as int, new_position as int);
        let term = self.items.remove(old_position as usize);
        self.items.insert(new_position as usize, term);
        assert(self@ =~= turned);
        if old_position <= new_position {
            self.relabel(old_position as usize, new_position as usize + 1);
        } else {
            self.relabel(new_position as usize, old_position as usize + 1);
        }
        assert(self@ =~= renumbered(turned, self.max_chars()));
        Ok(())
    }

    /// Moves the tab at `current`, the position that has the focus, one
    /// place forward or backward, and reports the place that it took.
    ///
    /// Forward from the last place leads to the first. Backward from the
    /// first place leads to the place one past the last tab, where no tab can
    /// stand: that move is reported as out of range and changes nothing.
    pub fn move_directional(&mut self, current: u32, forward: bool) -> (moved: Result<u32, TabError>)
        requires
            old(self).wf(),
        ensures
            final(self).wf(),
            final(self).max_chars() == old(self).max_chars(),
            match moved {
                Ok(target) => {
                    &&& current < old(self)@.len()
                    &&& target == move_target_spec(current, old(self)@.len(), forward)
                    &&& target < old(self)@.len()
                    &&& final(self)@ == renumbered(
                        rotated(old(self)@, current as int, target as int),
                        old(self).max_chars(),
                    )
                },
                Err(e) => {
                    &&& *final(self) == *old(self)
                    &&& e == TabError::EmptyRegistryOperation <==> old(self)@.len() == 0
                    &&& e == TabError::PositionOutOfRange <==> old(self)@.len() > 0
                    &&& old(self)@.len() > 0 ==> (current >= old(self)@.len() || move_target_spec(
                        current,
                        old(self)@.len(),
                        forward,
                    ) >= old(self)@.len())
                },
            },
    {
        let n: u32 = self.len();
        if n == 0 {
            return Err(TabError::EmptyRegistryOperation);
        }
        if current >= n {
            return Err(TabError::PositionOutOfRange);
        }
        let target: u32 = move_target(current, n, forward);
        match self.reorder(current, target) {
            Ok(_) => Ok(target),
            Err(e) => Err(e),
        }
    }

    /// Records a new working directory for the terminal of the tab at
    /// `position`, and refreshes the title of that tab.
    pub fn set_cwd(&mut self, position: u32, cwd: Option<String>) -> (done: Result<(), TabError>)
        requires
            old(self).wf(),
        ensures
            final(self).wf(),
            final(self).max_chars() == old(self).max_chars(),
            match done {
                Ok(_) => {
                    &&& position < old(self)@.len()
                    &&& final(self)@ == old(self)@.update(
                        position as int,
                        placed(
                            TerminalModel {
                                tab_counter: old(self)@[position as int].tab_counter,
                                position,
                                cwd: match cwd {
                                    Some(dir) => Some(dir@),
                                    None => None,
                                },
                                label: Seq::empty(),
                            },
                            position,
                            old(self).max_chars(),
                        ),
                    )
                },
                Err(e) => {
                    &&& e == TabError::PositionOutOfRange
                    &&& position >= old(self)@.len()
                    &&& *final(self) == *old(self)
                },
            },
    {
        if position as usize >= self.items.len() {
            return Err(TabError::PositionOutOfRange);
        }
        let ghost before = self@;
        assert(before[position as int] == placed(
            before[position as int],
            position,
            self.max_chars(),
        ));
        self.items[position as usize].set_cwd(cwd, self.max_location_chars);
        assert(self@ =~= before.update(position as int, self@[position as int]));
        assert forall|i: int| 0 <= i < self@.len() implies #[trigger] self@[i] == placed(
            self@[i],
            i as u32,
            self.max_chars(),
        ) by {
            if i != position {
                assert(self@[i] == before[i]);
            }
        }
        Ok(())
    }

    /// Gives the tabs from `from` up to, not including, `to` the position
    /// and the title of the place where each stands.
    fn relabel(&mut self, from: usize, to: usize)
        requires
            from <= to <= old(self).items@.len() <= u32::MAX,
        ensures
            final(self).max_chars() == old(self).max_chars(),
            final(self)@.len() == old(self)@.len(),
            forall|j: int|
                from <= j < to ==> #[trigger] final(self)@[j] == placed(
                    old(self)@[j],
                    j as u32,
                    old(self).max_chars(),
                ),
            forall|j: int|
                0 <= j < old(self)@.len() && !(from <= j < to) ==> #[trigger] final(self)@[j] == old(
                    self,
                )@[j],
    {
        let ghost before = self@;
        let mut i: usize = from;
        while i < to
            invariant
                from <= i <= to,
                to <= self.items@.len(),
                self.items@.len() == before.len(),
                before.len() <= u32::MAX,
                self.max_chars() == old(self).max_chars(),
                before == old(self)@,
                forall|j: int|
                    from <= j < i ==> #[trigger] self@[j] == placed(
                        before[j],
                        j as u32,
                        self.max_chars(),
                    ),
                forall|j: int|
                    0 <= j < before.len() && !(from <= j < i) ==> #[trigger] self@[j] == before[j],
            decreases to - i,
        {
            let ghost prev = self@;
            self.items[i].set_label(i as u32, self.max_location_chars);
            assert forall|j: int| from <= j < i + 1 implies #[trigger] self@[j] == placed(
                before[j],
                j as u32,
                self.max_chars(),
            ) by {
                if j < i {
                    assert(self@[j] == prev[j]);
                }
            }
            assert forall|j: int| 0 <= j < before.len() && !(from <= j < i + 1) implies #[trigger] self@[j]
                == before[j] by {
                assert(self@[j] == prev[j]);
            }
            i += 1;
        }
    }
}

/// The place that a tab at `current` among `len` tabs is sent to by a move
/// of one place. Forward wraps round to the first place. Backward from the
/// first place gives `len`, one past the last tab.
pub open spec fn move_target_spec(current: u32, len: nat, forward: bool) -> int {
    if forward {
        (current + 1) % (len as int)
    } else if current == 0 {
        len as int
    } else {
        current - 1
    }
}

/// The tabs of `s` after the one at `from` was taken out and put back in at
/// `to`.
pub open spec fn rotated(s: Seq<TerminalModel>, from: int, to: int) -> Seq<TerminalModel> {
    s.remove(from).insert(to, s[from])
}

/// Computes the place that a move of one place leads to.
pub fn move_target(current: u32, len: u32, forward: bool) -> (target: u32)
    requires
        0 < len,
        current < len,
    ensures
        target == move_target_spec(current, len as nat, forward),
{
    if forward {
        ((current as u64 + 1) % (len as u64)) as u32
    } else if current == 0 {
        len
    } else {
        current - 1
    }
}

/// Some tab of `s` holds the position `p`.
pub open spec fn position_taken(s: Seq<TerminalModel>, p: u32) -> bool {
    exists|i: int| 0 <= i < s.len() && (#[trigger] s[i]).position == p
}

/// Tabs in order stand at the positions `0, 1, ..., len - 1`: each of these
/// positions is held by exactly one tab, and no other position is held.
pub proof fn lemma_positions_dense(s: Seq<TerminalModel>, max: Option<i8>)
    requires
        in_order(s, max),
    ensures
        forall|i: int| 0 <= i < s.len() ==> (#[trigger] s[i]).position == i,
        forall|i: int, j: int|
            0 <= i < s.len() && 0 <= j < s.len() && i != j ==> (#[trigger] s[i]).position != (
            #[trigger] s[j]).position,
        forall|p: u32| #[trigger] position_taken(s, p) <==> p < s.len(),
{
    assert forall|i: int| 0 <= i < s.len() implies (#[trigger] s[i]).position == i by {
        assert(s[i] == placed(s[i], i as u32, max));
    }
    assert forall|p: u32| p < s.len() implies #[trigger] position_taken(s, p) by {
        assert(s[p as int].position == p);
    }
}

/// Giving tabs the positions and titles of their places changes no
/// terminal's number and no working directory, and leaves tabs that are in
/// order as they are.
pub proof fn lemma_renumbered(s: Seq<TerminalModel>, max: Option<i8>)
    requires
        s.len() <= u32::MAX,
    ensures
        in_order(renumbered(s, max), max),
        renumbered(s, max).len() == s.len(),
        tab_numbers(renumbered(s, max)) == tab_numbers(s),
        forall|i: int| 0 <= i < s.len() ==> (#[trigger] renumbered(s, max)[i]).cwd == s[i].cwd,
        in_order(s, max) ==> renumbered(s, max) == s,
{
    assert(tab_numbers(renumbered(s, max)) =~= tab_numbers(s));
    if in_order(s, max) {
        assert(renumbered(s, max) =~= s);
    }
}

/// A new tab changes the number of no terminal: the numbers after the
/// insertion are the numbers before it, with the new one put in at the new
/// tab's place.
pub proof fn lemma_insert_keeps_numbers(
    s: Seq<TerminalModel>,
    position: int,
    session: TerminalModel,
    max: Option<i8>,
)
    requires
        0 <= position <= s.len(),
    ensures
        tab_numbers(renumbered(s.insert(position, session), max)) == tab_numbers(s).insert(
            position,
            session.tab_counter,
        ),
{
    assert(tab_numbers(renumbered(s.insert(position, session), max)) =~= tab_numbers(s).insert(
        position,
        session.tab_counter,
    ));
}

/// Closing a tab changes the number of no other terminal: the numbers after
/// the removal are the numbers before it without the one of the closed tab.
pub proof fn lemma_remove_keeps_numbers(s: Seq<TerminalModel>, position: int, max: Option<i8>)
    requires
        0 <= position < s.len(),
    ensures
        tab_numbers(renumbered(s.remove(position), max)) == tab_numbers(s).remove(position),
{
    assert(tab_numbers(renumbered(s.remove(position), max)) =~= tab_numbers(s).remove(position));
}

/// Moving a tab changes the number of no terminal: the same numbers are
/// there afterwards, each as often as before, in the rotated order.
pub proof fn lemma_reorder_keeps_numbers(s: Seq<TerminalModel>, from: int, to: int, max: Option<i8>)
    requires
        0 <= from < s.len(),
        0 <= to < s.len(),
    ensures
        tab_numbers(renumbered(rotated(s, from, to), max)) == tab_numbers(s).remove(from).insert(
            to,
            s[from].tab_counter,
        ),
        tab_numbers(renumbered(rotated(s, from, to), max)).to_multiset() == tab_numbers(
            s,
        ).to_multiset(),
{
    let numbers = tab_numbers(s);
    let after = tab_numbers(renumbered(rotated(s, from, to), max));
    assert(after =~= numbers.remove(from).insert(to, s[from].tab_counter));
    broadcast use vstd::multiset::group_multiset_axioms;

    numbers.to_multiset_ensures();
    assert(numbers.to_multiset().count(numbers[from]) > 0);
    vstd::seq_lib::to_multiset_remove(numbers, from);
    vstd::seq_lib::to_multiset_insert(numbers.remove(from), to, numbers[from]);
    assert(after.to_multiset() =~= numbers.to_multiset());
}

/// Where each tab stands after the tab at `from` was moved to `to`.
///
/// The moved tab stands at `to`. When it moved to a later place, every tab
/// that stood after `from` and up to `to` stands one place earlier; when it
/// moved to an earlier place, every tab that stood from `to` on and before
/// `from` stands one place later. All other tabs, and all tabs when `from`
/// and `to` are the same place, are as they were.
pub proof fn lemma_reorder_places(s: Seq<TerminalModel>, from: int, to: int, max: Option<i8>)
    requires
        in_order(s, max),
        0 <= from < s.len(),
        0 <= to < s.len(),
    ensures
        renumbered(rotated(s, from, to), max).len() == s.len(),
        renumbered(rotated(s, from, to), max)[to] == placed(s[from], to as u32, max),
        from < to ==> forall|p: int|
            from < p <= to ==> #[trigger] renumbered(rotated(s, from, to), max)[p - 1] == placed(
                s[p],
                (p - 1) as u32,
                max,
            ),
        from > to ==> forall|p: int|
            to <= p < from ==> #[trigger] renumbered(rotated(s, from, to), max)[p + 1] == placed(
                s[p],
                (p + 1) as u32,
                max,
            ),
        forall|p: int|
            0 <= p < s.len() && (p < from && p < to || p > from && p > to) ==> #[trigger] renumbered(
                rotated(s, from, to),
                max,
            )[p] == s[p],
        from == to ==> renumbered(rotated(s, from, to), max) == s,
{
    let r = renumbered(rotated(s, from, to), max);
    if from == to {
        assert(rotated(s, from, to) =~= s);
        assert(r =~= s);
    }
    assert forall|p: int| 0 <= p < s.len() && (p < from && p < to || p > from && p > to) implies #[trigger] r[p]
        == s[p] by {
        assert(rotated(s, from, to)[p] == s[p]);
        assert(s[p] == placed(s[p], p as u32, max));
    }
}

/// Opening a tab at a position and closing the tab at that position right
/// away gives back the tabs as they were before: the same terminals at the
/// same positions with the same titles.
pub proof fn lemma_insert_then_remove(
    s: Seq<TerminalModel>,
    position: int,
    session: TerminalModel,
    max: Option<i8>,
)
    requires
        in_order(s, max),
        0 <= position <= s.len(),
        s.len() < u32::MAX,
    ensures
        renumbered(renumbered(s.insert(position, session), max).remove(position), max) == s,
{
    let inserted = renumbered(s.insert(position, session), max);
    let back = renumbered(inserted.remove(position), max);
    assert forall|i: int| 0 <= i < s.len() implies back[i] == s[i] by {
        assert(s[i] == placed(s[i], i as u32, max));
        if i < position {
            assert(inserted.remove(position)[i] == inserted[i]);
            assert(s.insert(position, session)[i] == s[i]);
        } else {
            assert(inserted.remove(position)[i] == inserted[i + 1]);
            assert(s.insert(position, session)[i + 1] == s[i]);
        }
    }
    assert(back =~= s);
}

/// A new terminal among numbered ones keeps the numbers apart, when its own
/// number is the next to be given.
pub proof fn lemma_insert_keeps_issued(
    s: Seq<TerminalModel>,
    position: int,
    session: TerminalModel,
    max: Option<i8>,
    next: u64,
)
    requires
        numbers_issued(s, next),
        0 <= position <= s.len(),
        session.tab_counter == next,
        next < u64::MAX,
    ensures
        numbers_issued(renumbered(s.insert(position, session), max), (next + 1) as u64),
{
    let grown = s.insert(position, session);
    let r = renumbered(grown, max);
    assert forall|i: int| 0 <= i < r.len() implies (#[trigger] r[i]).tab_counter < next + 1 by {
        if i < position {
            assert(grown[i] == s[i]);
        } else if i > position {
            assert(grown[i] == s[i - 1]);
        }
    }
    assert forall|i: int, j: int| 0 <= i < j < r.len() implies (#[trigger] r[i]).tab_counter != (
    #[trigger] r[j]).tab_counter by {
        let a = if i < position {
            i
        } else {
            i - 1
        };
        let b = if j < position {
            j
        } else {
            j - 1
        };
        if i != position {
            assert(grown[i] == s[a]);
        }
        if j != position {
            assert(grown[j] == s[b]);
        }
    }
}

/// Closing a tab keeps the numbers of the others apart.
pub proof fn lemma_remove_keeps_issued(
    s: Seq<TerminalModel>,
    position: int,
    max: Option<i8>,
    next: u64,
)
    requires
        numbers_issued(s, next),
        0 <= position < s.len(),
    ensures
        numbers_issued(renumbered(s.remove(position), max), next),
{
    let rest = s.remove(position);
    let r = renumbered(rest, max);
    assert forall|i: int| 0 <= i < r.len() implies (#[trigger] r[i]).tab_counter < next by {
        if i < position {
            assert(rest[i] == s[i]);
        } else {
            assert(rest[i] == s[i + 1]);
        }
    }
    assert forall|i: int, j: int| 0 <= i < j < r.len() implies (#[trigger] r[i]).tab_counter != (
    #[trigger] r[j]).tab_counter by {
        let a = if i < position {
            i
        } else {
            i + 1
        };
        let b = if j < position {
            j
        } else {
            j + 1
        };
        assert(rest[i] == s[a]);
        assert(rest[j] == s[b]);
    }
}

/// Moving a tab keeps the numbers apart.
pub proof fn lemma_reorder_keeps_issued(
    s: Seq<TerminalModel>,
    from: int,
    to: int,
    max: Option<i8>,
    next: u64,
)
    requires
        numbers_issued(s, next),
        0 <= from < s.len(),
        0 <= to < s.len(),
    ensures
        numbers_issued(renumbered(rotated(s, from, to), max), next),
{
    lemma_remove_keeps_issued(s, from, max, next);
    let rest = s.remove(from);
    let turned = rotated(s, from, to);
    let r = renumbered(turned, max);
    assert forall|i: int| 0 <= i < rest.len() implies (#[trigger] rest[i]).tab_counter
        != s[from].tab_counter by {
        if i < from {
            assert(rest[i] == s[i]);
        } else {
            assert(rest[i] == s[i + 1]);
        }
    }
    assert forall|i: int| 0 <= i < r.len() implies (#[trigger] r[i]).tab_counter < next by {
        if i < to {
            assert(turned[i] == rest[i]);
            assert(renumbered(rest, max)[i].tab_counter < next);
        } else if i > to {
            assert(turned[i] == rest[i - 1]);
            assert(renumbered(rest, max)[i - 1].tab_counter < next);
        }
    }
    assert forall|i: int, j: int| 0 <= i < j < r.len() implies (#[trigger] r[i]).tab_counter != (
    #[trigger] r[j]).tab_counter by {
        let a = if i < to {
            i
        } else {
            i - 1
        };
        let b = if j < to {
            j
        } else {
            j - 1
        };
        if i != to {
            assert(turned[i] == rest[a]);
        }
        if j != to {
            assert(turned[j] == rest[b]);
        }
        if i != to && j != to {
            assert(renumbered(rest, max)[a].tab_counter != renumbered(rest, max)[b].tab_counter);
        }
    }
}

/// One change of the tabs: a tab put in, a tab taken out, or a tab moved.
pub enum TabOp {
    Insert { position: u32, session: TerminalModel },
    Remove { position: u32 },
    Reorder { old_position: u32, new_position: u32 },
}

/// Whether `op` can be carried out on the tabs `s`: every position that it
/// names is in range, and there is room for a tab that it puts in.
pub open spec fn op_valid(s: Seq<TerminalModel>, op: TabOp) -> bool {
    match op {
        TabOp::Insert { position, session } => position <= s.len() && s.len() < u32::MAX,
        TabOp::Remove { position } => position < s.len(),
        TabOp::Reorder { old_position, new_position } => old_position < s.len() && new_position
            < s.len(),
    }
}

/// The tabs `s` after `op`, as `Terminals::insert_at`, `Terminals::remove`
/// and `Terminals::reorder` leave them.
pub open spec fn after_op(s: Seq<TerminalModel>, op: TabOp, max: Option<i8>) -> Seq<TerminalModel> {
    match op {
        TabOp::Insert { position, session } => renumbered(s.insert(position as int, session), max),
        TabOp::Remove { position } => renumbered(s.remove(position as int), max),
        TabOp::Reorder { old_position, new_position } => renumbered(
            rotated(s, old_position as int, new_position as int),
            max,
        ),
    }
}

/// The tabs `s` after the changes `ops`, one after the other.
pub open spec fn after_ops(s: Seq<TerminalModel>, ops: Seq<TabOp>, max: Option<i8>) -> Seq<
    TerminalModel,
>
    decreases ops.len(),
{
    if ops.len() == 0 {
        s
    } else {
        after_op(after_ops(s, ops.drop_last(), max), ops.last(), max)
    }
}

/// Each of the changes `ops` can be carried out on the tabs that the
/// changes before it left of `s`.
pub open spec fn ops_valid(s: Seq<TerminalModel>, ops: Seq<TabOp>, max: Option<i8>) -> bool
    decreases ops.len(),
{
    ops.len() == 0 || (ops_valid(s, ops.drop_last(), max) && op_valid(
        after_ops(s, ops.drop_last(), max),
        ops.last(),
    ))
}

/// Whatever tabs are put in, taken out and moved, one after the other and
/// each within range, the tabs are in order after every one of the changes:
/// their positions are `0, 1, ..., len - 1`, without gaps or repeats.
pub proof fn lemma_order_after_every_op(
    s: Seq<TerminalModel>,
    ops: Seq<TabOp>,
    max: Option<i8>,
    done: int,
)
    requires
        in_order(s, max),
        ops_valid(s, ops, max),
        0 <= done <= ops.len(),
    ensures
        ops_valid(s, ops.subrange(0, done), max),
        in_order(after_ops(s, ops.subrange(0, done), max), max),
        forall|p: u32| #[trigger]
            position_taken(after_ops(s, ops.subrange(0, done), max), p) <==> p < after_ops(
                s,
                ops.subrange(0, done),
                max,
            ).len(),
    decreases ops.len(),
{
    if done == ops.len() {
        assert(ops.subrange(0, done) =~= ops);
        if ops.len() > 0 {
            lemma_order_after_every_op(s, ops.drop_last(), max, done - 1);
            assert(ops.drop_last().subrange(0, done - 1) =~= ops.drop_last());
            let before = after_ops(s, ops.drop_last(), max);
            match ops.last() {
                TabOp::Insert { position, session } => {
                    lemma_renumbered(before.insert(position as int, session), max);
                },
                TabOp::Remove { position } => {
                    lemma_renumbered(before.remove(position as int), max);
                },
                TabOp::Reorder { old_position, new_position } => {
                    lemma_renumbered(rotated(before, old_position as int, new_position as int), max);
                },
            }
        }
    } else {
        lemma_order_after_every_op(s, ops.drop_last(), max, done);
        assert(ops.drop_last().subrange(0, done) =~= ops.subrange(0, done));
    }
    lemma_positions_dense(after_ops(s, ops.subrange(0, done), max), max);
}

} // verus!
