//! Batch renaming of files: one command computes a new path for each file,
//! the batch is checked for targets that collide, and a plan says what is to
//! be done with it.
use vstd::prelude::*;

pub mod commands;
pub mod extensions;
pub mod text;
pub mod trusted;

use crate::commands::{built_from, RenameCommand, RenameIntent};
use crate::text::{same_text, trim, trimmed};

verus! {

/// What is asked of one run: the command, the files, and three switches.
pub struct Config<C: RenameCommand> {
    pub command: C,
    pub dry: bool,
    pub files: Vec<String>,
    pub auto_confirm: bool,
    pub show_unchanged: bool,
}

/// What is to be done with a batch of intents.
#[derive(Clone, Copy, Debug, PartialEq, Eq, Structural)]
pub enum Decision {
    /// Two intents have the same target: nothing is renamed.
    Reject,
    /// A dry run: the intents are shown, nothing is renamed.
    Preview,
    /// The user is asked first.
    Confirm,
    /// The renames are carried out without a question.
    Apply,
}

/// A batch of intents and the decision taken on it.
pub struct Plan {
    pub intents: Vec<RenameIntent>,
    pub decision: Decision,
}

/// One thing to do while a batch is carried out. The number is the index of
/// the intent.
#[derive(Clone, Copy, Debug, PartialEq, Eq, Structural)]
pub enum Step {
    /// Rename the file on disk.
    Rename(usize),
    /// Show the intent's line.
    Report(usize),
}

/// Two intents at different places propose the same new path.
pub open spec fn has_collision(intents: Seq<RenameIntent>) -> bool {
    exists|i: int, j: int|
        #![trigger intents[i], intents[j]]
        0 <= i < j < intents.len() && intents[i].new_name@ == intents[j].new_name@
}

/// The intents that rename their file, in order.
pub open spec fn changed_intents(intents: Seq<RenameIntent>) -> Seq<RenameIntent> {
    intents.filter(|intent: RenameIntent| intent.changed())
}

/// The intents that are shown: the changed ones, and all of them where the
/// unchanged ones are asked for.
pub open spec fn shown_intents(intents: Seq<RenameIntent>, show_unchanged: bool) -> Seq<
    RenameIntent,
> {
    intents.filter(|intent: RenameIntent| intent.changed() || show_unchanged)
}

/// The decision on a batch: a collision rejects it; a dry run only shows
/// it; else it is applied at once if that was asked for or if no intent
/// changes anything, and the user is asked otherwise.
pub open spec fn decision(intents: Seq<RenameIntent>, dry: bool, auto_confirm: bool) -> Decision {
    if has_collision(intents) {
        Decision::Reject
    } else if dry {
        Decision::Preview
    } else if auto_confirm || changed_intents(intents).len() == 0 {
        Decision::Apply
    } else {
        Decision::Confirm
    }
}

/// Tells whether two of the intents have the same target.
pub fn contains_duplicates(intents: &Vec<RenameIntent>) -> (found: bool)
    ensures
        found == has_collision(intents@),
{
    let n = intents.len();
    let mut j: usize = 0;
    while j < n
        invariant
            n == intents.len(),
            j <= n,
            forall|a: int, b: int|
                #![trigger intents@[a], intents@[b]]
                0 <= a < b < j ==> intents@[a].new_name@ != intents@[b].new_name@,
        decreases n - j,
    {
        let mut i: usize = 0;
        while i < j
            invariant
                n == intents.len(),
                i <= j < n,
                forall|a: int|
                    0 <= a < i ==> (#[trigger] intents@[a]).new_name@ != intents@[j as int].new_name@,
            decreases j - i,
        {
            if intents[i].new_name == intents[j].new_name {
                assert(0 <= i < j < intents@.len() && intents@[i as int].new_name@
                    == intents@[j as int].new_name@);
                return true;
            }
            i += 1;
        }
        j += 1;
    }
    false
}

/// Counts the intents that rename their file.
pub fn count_changed(intents: &Vec<RenameIntent>) -> (count: usize)
    ensures
        count == changed_intents(intents@).len(),
{
    let mut count: usize = 0;
    let mut i: usize = 0;
    let ghost pred = |intent: RenameIntent| intent.changed();
    proof {
        reveal(Seq::filter);
        assert(intents@.take(0).filter(pred) =~= Seq::<RenameIntent>::empty());
    }
    while i < intents.len()
        invariant
            i <= intents.len(),
            count <= i,
            pred == |intent: RenameIntent| intent.changed(),
            count == intents@.take(i as int).filter(pred).len(),
        decreases intents.len() - i,
    {
        proof {
            reveal(Seq::filter);
            assert(intents@.take(i + 1).drop_last() =~= intents@.take(i as int));
            assert(intents@.take(i + 1).last() == intents@[i as int]);
        }
        if intents[i].is_changed() {
            count += 1;
        }
        i += 1;
    }
    assert(intents@.take(i as int) =~= intents@);
    count
}

/// Decides what is to be done with a batch.
pub fn decide(intents: &Vec<RenameIntent>, dry: bool, auto_confirm: bool) -> (d: Decision)
    ensures
        d == decision(intents@, dry, auto_confirm),
{
    if contains_duplicates(intents) {
        Decision::Reject
    } else if dry {
        Decision::Preview
    } else if auto_confirm || count_changed(intents) == 0 {
        Decision::Apply
    } else {
        Decision::Confirm
    }
}

/// Computes the intents for the files of `config` and decides on them.
/// There is no plan for a command that cannot be applied.
pub fn run<C: RenameCommand>(config: &Config<C>) -> (plan: Option<Plan>)
    ensures
        plan is Some <==> config.command.usable(),
        plan matches Some(p) ==> built_from(p.intents@, &config.command, config.files@)
            && p.decision == decision(p.intents@, config.dry, config.auto_confirm),
{
    if !config.command.is_usable() {
        return None;
    }
    let intents = config.command.suggest_renames(&config.files);
    let decision = decide(&intents, config.dry, config.auto_confirm);
    Some(Plan { intents, decision })
}

/// The answer, without the white space around it, is the letter `y`, small
/// or capital.
pub open spec fn affirmative(answer: Seq<char>) -> bool {
    trimmed(answer) == seq!['y'] || trimmed(answer) == seq!['Y']
}

/// Tells whether the user's answer to the question is a yes.
pub fn is_affirmative(answer: &str) -> (yes: bool)
    ensures
        yes == affirmative(answer@),
{
    let letter = trim(answer);
    proof {
        reveal_strlit("y");
        reveal_strlit("Y");
        assert("y"@ =~= seq!['y']);
        assert("Y"@ =~= seq!['Y']);
    }
    same_text(letter.as_str(), "y") || same_text(letter.as_str(), "Y")
}

/// The renames are carried out: the decision is to apply the batch, or it
/// is to ask and the answer is a yes.
pub open spec fn proceeds(decision: Decision, answer: Option<Seq<char>>) -> bool {
    match decision {
        Decision::Apply => true,
        Decision::Confirm => answer is Some && affirmative(answer.unwrap()),
        _ => false,
    }
}

/// Tells whether the renames are to be carried out, given the decision and,
/// where the user was asked, the answer.
pub fn should_proceed(decision: Decision, answer: Option<&str>) -> (go: bool)
    ensures
        go == proceeds(decision, answer.deep_view()),
{
    match decision {
        Decision::Apply => true,
        Decision::Confirm => match answer {
            Some(text) => is_affirmative(text),
            None => false,
        },
        _ => false,
    }
}

/// Picks the intents to show, in order: the changed ones, and all of them
/// where `show_unchanged` is set.
pub fn intents_to_show(intents: &Vec<RenameIntent>, show_unchanged: bool) -> (shown: Vec<
    RenameIntent,
>)
    ensures
        shown@ == shown_intents(intents@, show_unchanged),
{
    let mut shown: Vec<RenameIntent> = Vec::new();
    let mut i: usize = 0;
    let ghost pred = |intent: RenameIntent| intent.changed() || show_unchanged;
    proof {
        reveal(Seq::filter);
        assert(intents@.take(0).filter(pred) =~= Seq::<RenameIntent>::empty());
    }
    while i < intents.len()
        invariant
            i <= intents.len(),
            pred == |intent: RenameIntent| intent.changed() || show_unchanged,
            shown@ == intents@.take(i as int).filter(pred),
        decreases intents.len() - i,
    {
        proof {
            reveal(Seq::filter);
            assert(intents@.take(i + 1).drop_last() =~= intents@.take(i as int));
            assert(intents@.take(i + 1).last() == intents@[i as int]);
        }
        if intents[i].is_changed() || show_unchanged {
            shown.push(intents[i].clone());
        }
        i += 1;
    }
    assert(intents@.take(i as int) =~= intents@);
    shown
}

/// The intents to put before the user with a decision: the whole batch
/// where it is rejected, so that the collision can be found; what a dry run
/// is to show; the changes that a question is about; nothing where the
/// batch is applied at once.
pub open spec fn listed_intents(
    decision: Decision,
    intents: Seq<RenameIntent>,
    show_unchanged: bool,
) -> Seq<RenameIntent> {
    match decision {
        Decision::Reject => intents,
        Decision::Preview => shown_intents(intents, show_unchanged),
        Decision::Confirm => changed_intents(intents),
        Decision::Apply => Seq::empty(),
    }
}

/// With the unchanged intents asked for, all intents are shown; without
/// them, the changed ones.
pub proof fn lemma_shown_intents(intents: Seq<RenameIntent>)
    ensures
        shown_intents(intents, true) == intents,
        shown_intents(intents, false) == changed_intents(intents),
    decreases intents.len(),
{
    reveal(Seq::filter);
    if intents.len() > 0 {
        lemma_shown_intents(intents.drop_last());
        assert(intents.drop_last().push(intents.last()) =~= intents);
    }
}

impl Plan {
    /// Picks the intents to put before the user with this plan's decision.
    pub fn listing(&self, show_unchanged: bool) -> (listed: Vec<RenameIntent>)
        ensures
            listed@ == listed_intents(self.decision, self.intents@, show_unchanged),
    {
        proof {
            lemma_shown_intents(self.intents@);
        }
        match self.decision {
            Decision::Reject => intents_to_show(&self.intents, true),
            Decision::Preview => intents_to_show(&self.intents, show_unchanged),
            Decision::Confirm => intents_to_show(&self.intents, false),
            Decision::Apply => Vec::new(),
        }
    }
}

/// What is done for the intent at `index`: the rename if it changes the
/// path, then its line if lines are asked for.
pub open spec fn steps_for(intent: RenameIntent, index: int, show_unchanged: bool) -> Seq<Step> {
    (if intent.changed() {
        seq![Step::Rename(index as usize)]
    } else {
        Seq::empty()
    }) + (if show_unchanged {
        seq![Step::Report(index as usize)]
    } else {
        Seq::empty()
    })
}

/// What is done for a batch: the steps of each intent, in the order of the
/// intents.
pub open spec fn steps_of(intents: Seq<RenameIntent>, show_unchanged: bool) -> Seq<Step>
    decreases intents.len(),
{
    if intents.len() == 0 {
        Seq::empty()
    } else {
        steps_of(intents.drop_last(), show_unchanged) + steps_for(
            intents.last(),
            intents.len() - 1,
            show_unchanged,
        )
    }
}

/// Lists what is to be done to carry out a batch. A file is renamed only
/// where its intent changes the path.
pub fn execution_steps(intents: &Vec<RenameIntent>, show_unchanged: bool) -> (steps: Vec<Step>)
    ensures
        steps@ == steps_of(intents@, show_unchanged),
        forall|k: int|
            0 <= k < steps@.len() ==> (#[trigger] steps@[k] matches Step::Rename(i) ==> i
                < intents@.len() && intents@[i as int].changed()),
{
    let mut steps: Vec<Step> = Vec::new();
    let mut i: usize = 0;
    while i < intents.len()
        invariant
            i <= intents.len(),
            steps@ == steps_of(intents@.take(i as int), show_unchanged),
        decreases intents.len() - i,
    {
        proof {
            assert(intents@.take(i + 1).drop_last() =~= intents@.take(i as int));
            assert(intents@.take(i + 1).last() == intents@[i as int]);
        }
        let ghost before = steps@;
        if intents[i].is_changed() {
            steps.push(Step::Rename(i));
        }
        if show_unchanged {
            steps.push(Step::Report(i));
        }
        i += 1;
        assert(steps@ =~= before + steps_for(intents@[i - 1], i - 1, show_unchanged));
    }
    assert(intents@.take(i as int) =~= intents@);
    proof {
        assert forall|k: int| 0 <= k < steps@.len() implies (#[trigger] steps@[k] matches Step::Rename(
            i,
        ) ==> i < intents@.len() && intents@[i as int].changed()) by {
            lemma_rename_only_if_changed(intents@, show_unchanged, k);
        }
    }
    steps
}

/// The number of renames that succeeded.
pub open spec fn successes(outcomes: Seq<bool>) -> nat {
    outcomes.filter(|done: bool| done).len()
}

/// Counts the renames that succeeded, given the outcome of each.
pub fn count_renamed(outcomes: &Vec<bool>) -> (count: usize)
    ensures
        count == successes(outcomes@),
{
    let mut count: usize = 0;
    let mut i: usize = 0;
    let ghost pred = |done: bool| done;
    proof {
        reveal(Seq::filter);
        assert(outcomes@.take(0).filter(pred) =~= Seq::<bool>::empty());
    }
    while i < outcomes.len()
        invariant
            i <= outcomes.len(),
            count <= i,
            pred == |done: bool| done,
            count == outcomes@.take(i as int).filter(pred).len(),
        decreases outcomes.len() - i,
    {
        proof {
            reveal(Seq::filter);
            assert(outcomes@.take(i + 1).drop_last() =~= outcomes@.take(i as int));
            assert(outcomes@.take(i + 1).last() == outcomes@[i as int]);
        }
        if outcomes[i] {
            count += 1;
        }
        i += 1;
    }
    assert(outcomes@.take(i as int) =~= outcomes@);
    count
}

/// A command proposes one path for one old path: two results of
/// `suggest_new_name` for the same command and the same path are equal.
pub proof fn lemma_suggestion_is_deterministic<C: RenameCommand>(
    command: C,
    old_name: Seq<char>,
    first: Seq<char>,
    second: Seq<char>,
)
    requires
        first == command.target(old_name),
        second == command.target(old_name),
    ensures
        first == second,
{
}

/// Two batches built by one command from the same files propose the same
/// paths, file by file.
pub proof fn lemma_batch_is_deterministic<C: RenameCommand>(
    command: C,
    files: Seq<String>,
    first: Seq<RenameIntent>,
    second: Seq<RenameIntent>,
)
    requires
        built_from(first, &command, files),
        built_from(second, &command, files),
    ensures
        first.len() == second.len(),
        forall|i: int|
            0 <= i < first.len() ==> (#[trigger] first[i]).old_name@ == second[i].old_name@
                && first[i].new_name@ == second[i].new_name@,
{
}

/// Where no old path occurs twice in a batch, the batch has a collision
/// exactly if two different old paths get the same new path. The empty
/// batch has none.
pub proof fn lemma_collision_of_distinct_sources(intents: Seq<RenameIntent>)
    requires
        forall|i: int, j: int|
            #![trigger intents[i], intents[j]]
            0 <= i < j < intents.len() ==> intents[i].old_name@ != intents[j].old_name@,
    ensures
        has_collision(intents) <==> exists|i: int, j: int|
            #![trigger intents[i], intents[j]]
            0 <= i < intents.len() && 0 <= j < intents.len() && intents[i].old_name@
                != intents[j].old_name@ && intents[i].new_name@ == intents[j].new_name@,
        intents.len() == 0 ==> !has_collision(intents),
{
    if has_collision(intents) {
        let (i, j) = choose|i: int, j: int|
            #![trigger intents[i], intents[j]]
            0 <= i < j < intents.len() && intents[i].new_name@ == intents[j].new_name@;
        assert(intents[i].old_name@ != intents[j].old_name@);
    }
    if exists|i: int, j: int|
        #![trigger intents[i], intents[j]]
        0 <= i < intents.len() && 0 <= j < intents.len() && intents[i].old_name@
            != intents[j].old_name@ && intents[i].new_name@ == intents[j].new_name@ {
        let (i, j) = choose|i: int, j: int|
            #![trigger intents[i], intents[j]]
            0 <= i < intents.len() && 0 <= j < intents.len() && intents[i].old_name@
                != intents[j].old_name@ && intents[i].new_name@ == intents[j].new_name@;
        if i < j {
            assert(intents[i].new_name@ == intents[j].new_name@);
        } else {
            assert(intents[j].new_name@ == intents[i].new_name@);
        }
    }
}

/// A dry run never leads to a rename: its decision is to reject the batch
/// or to show it, and whatever the answer, the batch is not carried out.
pub proof fn lemma_dry_run_renames_nothing(
    intents: Seq<RenameIntent>,
    auto_confirm: bool,
    answer: Option<Seq<char>>,
)
    ensures
        decision(intents, true, auto_confirm) == Decision::Reject || decision(
            intents,
            true,
            auto_confirm,
        ) == Decision::Preview,
        !proceeds(decision(intents, true, auto_confirm), answer),
{
}

/// A batch in which no intent changes anything is never put to the user:
/// outside a dry run, and without a collision, it is carried out with no
/// answer at all, with or without automatic confirmation.
pub proof fn lemma_unchanged_batch_needs_no_answer(
    intents: Seq<RenameIntent>,
    dry: bool,
    auto_confirm: bool,
)
    requires
        changed_intents(intents).len() == 0,
    ensures
        decision(intents, dry, auto_confirm) != Decision::Confirm,
        !dry && !has_collision(intents) ==> decision(intents, dry, auto_confirm)
            == Decision::Apply && proceeds(decision(intents, dry, auto_confirm), None),
{
}

/// Every rename among the steps of a batch is that of an intent of the
/// batch which changes the path: a file whose intent leaves the path as it
/// is, is never renamed.
pub proof fn lemma_rename_only_if_changed(
    intents: Seq<RenameIntent>,
    show_unchanged: bool,
    k: int,
)
    requires
        0 <= k < steps_of(intents, show_unchanged).len(),
        intents.len() <= usize::MAX,
    ensures
        steps_of(intents, show_unchanged)[k] matches Step::Rename(i) ==> i < intents.len()
            && intents[i as int].changed(),
    decreases intents.len(),
{
    if intents.len() > 0 {
        let head = steps_of(intents.drop_last(), show_unchanged);
        if k < head.len() {
            lemma_rename_only_if_changed(intents.drop_last(), show_unchanged, k);
        }
    }
}

} // verus!
