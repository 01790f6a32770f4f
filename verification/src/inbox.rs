//! The inbox: which of its files are commands, in which order they are taken, and what comes
//! of each.

use vstd::prelude::*;
use vstd::utf8::is_ascii_chars;

use crate::case::{raised, uppercase};
use crate::command::{fields_of, read_command, routed, Command, CommandModel};
use crate::data::{AppData, AppModel};
use crate::effect::{seen, Effect};
use crate::json::json_document;
use crate::notes::cleanup_slot;
use crate::push::{text_seen, PushRequest};
use crate::recolor::{handle_set_color, recoloring, Recolor};
use crate::text::has_suffix;

verus! {

/// The bytes of `.json`.
pub open spec fn json_extension() -> Seq<u8> {
    seq![46u8, 106u8, 115u8, 111u8, 110u8]
}

/// A file of this name holds a command: its extension is `json`. What begins with its only
/// dot has no extension.
pub open spec fn names_command(name: Seq<u8>) -> bool {
    name.len() > 5 && has_suffix(name, json_extension())
}

/// Whether a file of this name holds a command.
pub fn is_command_name(name: &Vec<u8>) -> (r: bool)
    ensures
        r == names_command(name@),
{
    let n: usize = name.len();
    if n <= 5 {
        return false;
    }
    let r: bool = name[n - 5] == 46 && name[n - 4] == 106 && name[n - 3] == 115 && name[n - 2]
        == 111 && name[n - 1] == 110;
    proof {
        let tail = name@.skip(n - 5);
        if r {
            assert(tail =~= json_extension());
        } else if tail == json_extension() {
            assert(tail[0] == name@[n - 5]);
            assert(tail[1] == name@[n - 4]);
            assert(tail[2] == name@[n - 3]);
            assert(tail[3] == name@[n - 2]);
            assert(tail[4] == name@[n - 1]);
        }
    }
    r
}

/// `a` comes before `b` in the order of their bytes, the shorter first where one begins the
/// other.
pub open spec fn name_before(a: Seq<u8>, b: Seq<u8>) -> bool
    decreases a.len(),
{
    if b.len() == 0 {
        false
    } else if a.len() == 0 {
        true
    } else if a[0] != b[0] {
        a[0] < b[0]
    } else {
        name_before(a.skip(1), b.skip(1))
    }
}

/// Whether `a` comes before `b`.
fn is_before(a: &Vec<u8>, b: &Vec<u8>) -> (r: bool)
    ensures
        r == name_before(a@, b@),
{
    let mut i: usize = 0;
    assert(a@.skip(0) =~= a@);
    assert(b@.skip(0) =~= b@);
    loop
        invariant
            i <= a@.len(),
            i <= b@.len(),
            name_before(a@.skip(i as int), b@.skip(i as int)) == name_before(a@, b@),
        decreases a@.len() - i,
    {
        if i == b.len() {
            return false;
        }
        if i == a.len() {
            return true;
        }
        if a[i] != b[i] {
            return a[i] < b[i];
        }
        assert(a@.skip(i as int).skip(1) =~= a@.skip(i + 1));
        assert(b@.skip(i as int).skip(1) =~= b@.skip(i + 1));
        i = i + 1;
    }
}

proof fn lemma_before_irreflexive(a: Seq<u8>)
    ensures
        !name_before(a, a),
    decreases a.len(),
{
    if a.len() > 0 {
        lemma_before_irreflexive(a.skip(1));
    }
}

proof fn lemma_before_transitive(a: Seq<u8>, b: Seq<u8>, c: Seq<u8>)
    requires
        !name_before(b, a),
        !name_before(c, b),
    ensures
        !name_before(c, a),
    decreases a.len() + b.len() + c.len(),
{
    if a.len() > 0 && c.len() > 0 && b.len() > 0 && a[0] == b[0] && b[0] == c[0] {
        lemma_before_transitive(a.skip(1), b.skip(1), c.skip(1));
    }
}

/// The indices in `order` name the commands among `names[..n]`, each once, and in the order
/// of their names; files of the same name keep the order in which they were found.
pub open spec fn orders(order: Seq<usize>, names: Seq<Vec<u8>>, n: int) -> bool {
    &&& forall|i: int|
        0 <= i < order.len() ==> (#[trigger] order[i]) < n && names_command(
            names[order[i] as int]@,
        )
    &&& forall|k: int|
        0 <= k < n && names_command((#[trigger] names[k])@) ==> order.contains(k as usize)
    &&& forall|i: int, j: int|
        #![trigger order[i], order[j]]
        0 <= i < j < order.len() ==> sorted_pair(names, order[i], order[j])
}

/// The file at `a` is taken before the one at `b`.
pub open spec fn sorted_pair(names: Seq<Vec<u8>>, a: usize, b: usize) -> bool {
    ||| name_before(names[a as int]@, names[b as int]@)
    ||| (!name_before(names[b as int]@, names[a as int]@) && a < b)
}

/// The commands among the files of the inbox, in the order in which they are taken, each by
/// its place in `names`.
pub fn inbox_order(names: &Vec<Vec<u8>>) -> (r: Vec<usize>)
    ensures
        orders(r@, names@, names@.len() as int),
{
    let mut order: Vec<usize> = Vec::new();
    let mut k: usize = 0;
    while k < names.len()
        invariant
            k <= names@.len(),
            orders(order@, names@, k as int),
        decreases names@.len() - k,
    {
        if is_command_name(&names[k]) {
            insert_ordered(&mut order, names, k);
        } else {
            assert forall|m: int|
                0 <= m < k + 1 && names_command((#[trigger] names@[m])@) implies order@.contains(
                m as usize,
            ) by {
                assert(m < k);
            }
        }
        k = k + 1;
    }
    order
}

/// Puts the file at `k` in its place.
fn insert_ordered(order: &mut Vec<usize>, names: &Vec<Vec<u8>>, k: usize)
    requires
        k < names@.len(),
        names_command(names@[k as int]@),
        orders(old(order)@, names@, k as int),
    ensures
        orders(final(order)@, names@, k + 1),
{
    let ghost before = order@;
    let mut at: usize = order.len();
    while at > 0 && is_before(&names[k], &names[order[at - 1]])
        invariant
            order@ == before,
            at <= order@.len(),
            k < names@.len(),
            orders(before, names@, k as int),
            forall|j: int|
                at <= j < before.len() ==> name_before(
                    names@[k as int]@,
                    names@[(#[trigger] before[j]) as int]@,
                ),
        decreases at,
    {
        at = at - 1;
    }
    proof {
        if at > 0 {
            assert forall|i: int| 0 <= i < at implies !name_before(
                names@[k as int]@,
                names@[(#[trigger] before[i]) as int]@,
            ) by {
                let last = before[at - 1];
                assert(!name_before(names@[k as int]@, names@[last as int]@));
                if i < at - 1 {
                    assert(sorted_pair(names@, before[i], last));
                    lemma_not_before(names@[before[i] as int]@, names@[last as int]@);
                    lemma_before_transitive(
                        names@[before[i] as int]@,
                        names@[last as int]@,
                        names@[k as int]@,
                    );
                }
            }
        }
    }
    order.insert(at, k);
    proof {
        let after = order@;
        assert(after =~= before.insert(at as int, k));
        assert forall|i: int| 0 <= i < after.len() implies (#[trigger] after[i]) < k + 1
            && names_command(names@[after[i] as int]@) by {
            if i < at {
                assert(after[i] == before[i]);
            } else if i > at {
                assert(after[i] == before[i - 1]);
            }
        }
        assert forall|m: int|
            0 <= m < k + 1 && names_command((#[trigger] names@[m])@) implies after.contains(
            m as usize,
        ) by {
            if m == k {
                assert(after[at as int] == k);
            } else {
                assert(before.contains(m as usize));
                let i = choose|i: int| 0 <= i < before.len() && before[i] == m as usize;
                if i < at {
                    assert(after[i] == m as usize);
                } else {
                    assert(after[i + 1] == m as usize);
                }
            }
        }
        assert forall|i: int, j: int|
            #![trigger after[i], after[j]]
            0 <= i < j < after.len() implies sorted_pair(names@, after[i], after[j]) by {
            if j < at {
                assert(after[i] == before[i] && after[j] == before[j]);
            } else if j == at {
                assert(after[i] == before[i]);
                assert(before[i] < k);
            } else if i < at {
                assert(after[i] == before[i] && after[j] == before[j - 1]);
            } else if i == at {
                assert(after[j] == before[j - 1]);
            } else {
                assert(after[i] == before[i - 1] && after[j] == before[j - 1]);
            }
        }
    }
}

proof fn lemma_not_before(a: Seq<u8>, b: Seq<u8>)
    ensures
        name_before(a, b) ==> !name_before(b, a),
    decreases a.len(),
{
    if a.len() > 0 && b.len() > 0 && a[0] == b[0] {
        lemma_not_before(a.skip(1), b.skip(1));
    }
}

/// No file is taken twice.
pub proof fn law_commands_are_taken_once(order: Seq<usize>, names: Seq<Vec<u8>>, n: int)
    requires
        orders(order, names, n),
    ensures
        order.no_duplicates(),
{
    assert forall|i: int, j: int|
        0 <= i < order.len() && 0 <= j < order.len() && i != j implies order[i] != order[j] by {
        if i < j {
            assert(sorted_pair(names, order[i], order[j]));
            lemma_before_irreflexive(names[order[i] as int]@);
        } else {
            assert(sorted_pair(names, order[j], order[i]));
            lemma_before_irreflexive(names[order[j] as int]@);
        }
    }
}

/// One thing to do with a file of the inbox, by its place among the names.
#[derive(Clone, Copy, Debug, PartialEq, Eq, Structural)]
pub enum InboxAction {
    /// Read the file as text.
    Read(usize),
    /// Remove the file.
    Remove(usize),
    /// Hand what was read to `process_inbox`, and do what comes of it.
    Obey(usize),
}

/// How the files of the inbox are worked off: one after the other, each read, removed, and
/// only then obeyed.
pub open spec fn schedule(order: Seq<usize>) -> Seq<InboxAction> {
    Seq::new(
        3 * order.len(),
        |i: int|
            if i % 3 == 0 {
                InboxAction::Read(order[i / 3])
            } else if i % 3 == 1 {
                InboxAction::Remove(order[i / 3])
            } else {
                InboxAction::Obey(order[i / 3])
            },
    )
}

/// How the files of the inbox are worked off, given the order in which they are taken.
pub fn inbox_schedule(order: &Vec<usize>) -> (r: Vec<InboxAction>)
    ensures
        r@ == schedule(order@),
{
    let mut actions: Vec<InboxAction> = Vec::new();
    let mut k: usize = 0;
    while k < order.len()
        invariant
            k <= order@.len(),
            actions@ == schedule(order@.take(k as int)),
        decreases order@.len() - k,
    {
        actions.push(InboxAction::Read(order[k]));
        actions.push(InboxAction::Remove(order[k]));
        actions.push(InboxAction::Obey(order[k]));
        k = k + 1;
        assert(actions@ =~= schedule(order@.take(k as int)));
    }
    assert(order@.take(k as int) =~= order@);
    actions
}

/// The inbox is emptied of commands and of nothing else: every file that holds a command is
/// read, removed right then, and obeyed right after that; of the other files none is read or
/// removed. An inbox without commands leaves nothing to do.
pub proof fn law_commands_are_worked_off(
    order: Seq<usize>,
    names: Seq<Vec<u8>>,
    n: int,
    k: usize,
)
    requires
        orders(order, names, n),
        k < n,
    ensures
        names_command(names[k as int]@) ==> exists|i: int|
            0 <= i && i + 2 < schedule(order).len() && #[trigger] schedule(order)[i]
                == InboxAction::Read(k) && schedule(order)[i + 1] == InboxAction::Remove(k)
                && schedule(order)[i + 2] == InboxAction::Obey(k),
        !names_command(names[k as int]@) ==> {
            &&& !schedule(order).contains(InboxAction::Read(k))
            &&& !schedule(order).contains(InboxAction::Remove(k))
            &&& !schedule(order).contains(InboxAction::Obey(k))
        },
        (forall|m: int| 0 <= m < n ==> !names_command((#[trigger] names[m])@)) ==> schedule(
            order,
        ).len() == 0,
{
    let actions = schedule(order);
    if names_command(names[k as int]@) {
        assert(order.contains(k));
        let at = choose|at: int| 0 <= at < order.len() && order[at] == k;
        assert(actions[3 * at] == InboxAction::Read(k));
        assert(actions[3 * at + 1] == InboxAction::Remove(k));
        assert(actions[3 * at + 2] == InboxAction::Obey(k));
    } else {
        assert forall|i: int| 0 <= i < actions.len() implies actions[i] != InboxAction::Read(k)
            && actions[i] != InboxAction::Remove(k) && actions[i] != InboxAction::Obey(k) by {
            assert(names_command(names[order[i / 3] as int]@));
        }
    }
    if forall|m: int| 0 <= m < n ==> !names_command((#[trigger] names[m])@) {
        if order.len() > 0 {
            assert(names_command(names[order[0] as int]@));
        }
    }
}

/// A file is removed before its command is carried out, and each happens once.
pub proof fn law_files_are_removed_before_they_are_obeyed(
    order: Seq<usize>,
    names: Seq<Vec<u8>>,
    n: int,
    k: usize,
    i: int,
    j: int,
)
    requires
        orders(order, names, n),
        0 <= i < schedule(order).len(),
        0 <= j < schedule(order).len(),
        schedule(order)[j] == InboxAction::Obey(k),
    ensures
        schedule(order)[i] == InboxAction::Remove(k) ==> i == j - 1,
        schedule(order)[i] == InboxAction::Read(k) ==> i == j - 2,
        schedule(order)[i] == InboxAction::Obey(k) ==> i == j,
        schedule(order)[j - 1] == InboxAction::Remove(k),
{
    law_commands_are_taken_once(order, names, n);
    assert(order[j / 3] == k);
    assert(order[i / 3] == k ==> i / 3 == j / 3);
}

/// Commands are carried out in the order of the names of their files.
pub proof fn law_commands_are_obeyed_in_order(
    order: Seq<usize>,
    names: Seq<Vec<u8>>,
    n: int,
    i: int,
    j: int,
    a: usize,
    b: usize,
)
    requires
        orders(order, names, n),
        0 <= i < j < schedule(order).len(),
        schedule(order)[i] == InboxAction::Obey(a),
        schedule(order)[j] == InboxAction::Obey(b),
    ensures
        sorted_pair(names, a, b),
{
    assert(i / 3 < j / 3);
    assert(sorted_pair(names, order[i / 3], order[j / 3]));
}

/// What comes of a file in the inbox.
#[derive(Debug, PartialEq, Eq)]
pub enum InboxStep {
    /// There is nothing to do.
    Nothing,
    /// Push this note, not put off so far.
    Push(PushRequest),
    /// Do this, in order.
    Do(Vec<Effect>),
    /// A colour that decides cannot be cut into pairs of digits.
    Unreadable,
}

/// `step` and `after` are what comes of a command in the state `before`.
pub open spec fn obeyed(
    before: AppModel,
    command: CommandModel,
    after: AppModel,
    step: InboxStep,
) -> bool {
    match command {
        CommandModel::Push(request) => {
            &&& after == before
            &&& step matches InboxStep::Push(pushed) && pushed@ == request
        },
        CommandModel::Close(slot) => {
            &&& after == before.cleaned(slot, true)
            &&& step matches InboxStep::Do(effects) && seen(effects@) == before.cleaning(slot, true)
        },
        CommandModel::SetColor { slot, color } => if before.recolor_unreadable(
            slot,
            uppercase(color),
        ) {
            after == before && step is Unreadable
        } else if before.accepts_color(slot, uppercase(color)) {
            &&& after == before.recolored(slot, uppercase(color))
            &&& step matches InboxStep::Do(effects) && seen(effects@) == recoloring(
                slot,
                uppercase(color),
            )
        } else {
            after == before && step is Nothing
        },
        CommandModel::Unknown => after == before && step is Nothing,
    }
}

/// Carries out a command.
pub fn obey(data: &mut AppData, command: Command) -> (r: InboxStep)
    ensures
        obeyed(old(data)@, command@, final(data)@, r),
        command@ matches CommandModel::SetColor { color, .. } ==> is_ascii_chars(color)
            ==> uppercase(color) == raised(color),
        old(data)@.inv() ==> final(data)@.inv(),
{
    match command {
        Command::Push(request) => InboxStep::Push(request),
        Command::Close(slot) => InboxStep::Do(cleanup_slot(data, slot, true)),
        Command::SetColor { slot, color } => {
            match handle_set_color(data, slot, color.as_str()) {
                Recolor::Refused => InboxStep::Nothing,
                Recolor::Unreadable => InboxStep::Unreadable,
                Recolor::Done(effects) => InboxStep::Do(effects),
            }
        },
        Command::Unknown => InboxStep::Nothing,
    }
}

/// Takes a file out of the inbox: `text` is what it held, where it could be read. What is no
/// JSON document is passed over.
pub fn process_inbox(data: &mut AppData, text: &Option<String>) -> (r: InboxStep)
    ensures
        match text_seen(*text) {
            Some(held) => match json_document(held) {
                Some(document) => obeyed(
                    old(data)@,
                    routed(fields_of(document)),
                    final(data)@,
                    r,
                ),
                None => final(data)@ == old(data)@ && r is Nothing,
            },
            None => final(data)@ == old(data)@ && r is Nothing,
        },
        old(data)@.inv() ==> final(data)@.inv(),
{
    match text {
        Some(held) => {
            match read_command(held.as_str()) {
                Some(command) => obey(data, command),
                None => InboxStep::Nothing,
            }
        },
        None => InboxStep::Nothing,
    }
}

/// A file holds a command exactly where its name ends in `.json` and has something in front of
/// that.
pub proof fn law_commands_end_in_json(front: Seq<u8>, name: Seq<u8>)
    ensures
        front.len() > 0 ==> names_command(
            front + seq![46u8, 106u8, 115u8, 111u8, 110u8],
        ),
        names_command(name) ==> {
            &&& name.len() > 5
            &&& name[name.len() - 5] == 46
            &&& name[name.len() - 4] == 106
            &&& name[name.len() - 3] == 115
            &&& name[name.len() - 2] == 111
            &&& name[name.len() - 1] == 110
        },
{
    let json = seq![46u8, 106u8, 115u8, 111u8, 110u8];
    assert((front + json).skip(front.len() as int) =~= json);
    if names_command(name) {
        let tail = name.skip(name.len() - 5);
        assert(tail[0] == name[name.len() - 5]);
        assert(tail[1] == name[name.len() - 4]);
        assert(tail[2] == name[name.len() - 3]);
        assert(tail[3] == name[name.len() - 2]);
        assert(tail[4] == name[name.len() - 1]);
    }
}

/// Names are ordered by the first byte in which they differ, and what is common to both in
/// front makes no difference; a name comes before every longer one that begins with it.
pub proof fn law_names_are_ordered_by_bytes(common: Seq<u8>, a: Seq<u8>, b: Seq<u8>)
    ensures
        name_before(common + a, common + b) == name_before(a, b),
        a.len() > 0 && b.len() > 0 && a[0] < b[0] ==> name_before(a, b) && !name_before(b, a),
        a.len() == 0 ==> name_before(a, b) == (b.len() > 0) && !name_before(b, a),
    decreases common.len(),
{
    if common.len() == 0 {
        assert(common + a =~= a && common + b =~= b);
    } else {
        assert((common + a).skip(1) =~= common.skip(1) + a);
        assert((common + b).skip(1) =~= common.skip(1) + b);
        law_names_are_ordered_by_bytes(common.skip(1), a, b);
    }
}

/// Commands are taken in the order of their names, files of one name in the order in which they
/// were found; exactly the files that hold commands are taken.
pub proof fn law_commands_are_taken_by_name(
    order: Seq<usize>,
    names: Seq<Vec<u8>>,
    n: int,
    i: int,
    j: int,
    k: usize,
)
    requires
        orders(order, names, n),
        0 <= i < j < order.len(),
    ensures
        !name_before(names[order[j] as int]@, names[order[i] as int]@),
        name_before(names[order[i] as int]@, names[order[j] as int]@) || order[i] < order[j],
        k < n ==> (order.contains(k) <==> names_command(names[k as int]@)),
        order[i] < n,
{
    assert(sorted_pair(names, order[i], order[j]));
    lemma_not_before(names[order[i] as int]@, names[order[j] as int]@);
    if order.contains(k) {
        let at = choose|at: int| 0 <= at < order.len() && order[at] == k;
        assert(names_command(names[order[at] as int]@));
    }
}

/// Three things are done with each file, in this order: it is read, removed and obeyed.
pub proof fn law_each_file_is_read_removed_and_obeyed(order: Seq<usize>, k: int)
    requires
        0 <= k < order.len(),
    ensures
        schedule(order).len() == 3 * order.len(),
        schedule(order)[3 * k] == InboxAction::Read(order[k]),
        schedule(order)[3 * k + 1] == InboxAction::Remove(order[k]),
        schedule(order)[3 * k + 2] == InboxAction::Obey(order[k]),
{
}

/// A command to push is handed on as it is and changes nothing yet; one that is not known does
/// nothing at all.
pub proof fn law_pushes_are_handed_on(
    before: AppModel,
    after: AppModel,
    command: CommandModel,
    step: InboxStep,
)
    requires
        obeyed(before, command, after, step),
    ensures
        command matches CommandModel::Push(request) ==> after == before
            && (step matches InboxStep::Push(pushed) && pushed@ == request),
        command is Unknown ==> after == before && step is Nothing,
{
}

/// A command to close clears the very slot that it names, window and all.
pub proof fn law_close_commands_clear_their_slot(
    before: AppModel,
    after: AppModel,
    slot: u8,
    step: InboxStep,
)
    requires
        obeyed(before, CommandModel::Close(slot), after, step),
    ensures
        after == before.cleaned(slot, true),
        step matches InboxStep::Do(effects) && seen(effects@) == before.cleaning(slot, true),
{
}

/// A command to colour gives the very border that it names the colour in upper case where that
/// is accepted, and else changes nothing.
pub proof fn law_color_commands_color_their_border(
    before: AppModel,
    after: AppModel,
    slot: u8,
    color: Seq<char>,
    step: InboxStep,
)
    requires
        obeyed(before, CommandModel::SetColor { slot, color }, after, step),
    ensures
        before.recolor_unreadable(slot, uppercase(color)) ==> after == before && step is Unreadable,
        !before.recolor_unreadable(slot, uppercase(color)) && before.accepts_color(
            slot,
            uppercase(color),
        ) ==> after == before.recolored(slot, uppercase(color)) && (step matches InboxStep::Do(
            effects,
        ) && seen(effects@) == recoloring(slot, uppercase(color))),
        !before.recolor_unreadable(slot, uppercase(color)) && !before.accepts_color(
            slot,
            uppercase(color),
        ) ==> after == before && step is Nothing,
{
}

} // verus!
