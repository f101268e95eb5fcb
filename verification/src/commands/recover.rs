use crate::commands::definition::{chat_command, chat_command_spec, CommandSpec, CommandView};
use vstd::prelude::*;

verus! {

/// The `/recover` slash command.
pub struct RecoverCommand;

impl RecoverCommand {
    /// The command's name.
    pub fn name(&self) -> (r: &'static str)
        ensures
            r@ == "recover"@,
    {
        "recover"
    }

    /// The translation key of the command's description.
    pub fn description_key(&self) -> (r: &'static str)
        ensures
            r@ == "slash_command.recover_command_description"@,
    {
        "slash_command.recover_command_description"
    }

    /// The translation key of the command's help text.
    pub fn doc_key(&self) -> (r: &'static str)
        ensures
            r@ == "help.recover"@,
    {
        "help.recover"
    }
}


/// The outcome of recovering the missing messages of one ticket.
#[derive(Clone, Copy, Debug)]
pub struct RecoveryResult {
    pub recovered_count: u32,
    pub success: bool,
}

/// The messages recovered over the results.
pub open spec fn recovered_total(results: Seq<RecoveryResult>) -> int
    decreases results.len(),
{
    if results.len() == 0 {
        0
    } else {
        recovered_total(results.drop_last()) + results.last().recovered_count
    }
}

/// The tickets recovered without error.
pub open spec fn successful_count(results: Seq<RecoveryResult>) -> int
    decreases results.len(),
{
    if results.len() == 0 {
        0
    } else {
        successful_count(results.drop_last()) + if results.last().success {
            1int
        } else {
            0int
        }
    }
}

proof fn lemma_successful_count_bounded(results: Seq<RecoveryResult>)
    ensures
        0 <= successful_count(results) <= results.len(),
    decreases results.len(),
{
    if results.len() > 0 {
        lemma_successful_count_bounded(results.drop_last());
    }
}

/// The summary of a recovery: messages recovered, tickets that succeeded, and
/// tickets that failed.
pub fn recovery_summary(results: &Vec<RecoveryResult>) -> (r: (u32, usize, usize))
    requires
        recovered_total(results@) <= u32::MAX,
    ensures
        r.0 == recovered_total(results@),
        r.1 == successful_count(results@),
        r.2 == results.len() - successful_count(results@),
{
    let mut total: u32 = 0;
    let mut ok: usize = 0;
    let mut i: usize = 0;
    assert(results@.take(0) =~= Seq::<RecoveryResult>::empty());
    while i < results.len()
        invariant
            i <= results.len(),
            recovered_total(results@) <= u32::MAX,
            total == recovered_total(results@.take(i as int)),
            ok == successful_count(results@.take(i as int)),
            ok <= i,
        decreases results.len() - i,
    {
        let ghost prefix = results@.take(i + 1);
        assert(prefix.drop_last() =~= results@.take(i as int));
        proof {
            lemma_total_prefix_bounded(results@, i + 1);
        }
        total = total + results[i].recovered_count;
        if results[i].success {
            ok = ok + 1;
        }
        i = i + 1;
    }
    assert(results@.take(results.len() as int) =~= results@);
    (total, ok, results.len() - ok)
}

proof fn lemma_total_prefix_bounded(results: Seq<RecoveryResult>, k: int)
    requires
        0 <= k <= results.len(),
    ensures
        recovered_total(results.take(k)) <= recovered_total(results),
    decreases results.len() - k,
{
    if k < results.len() {
        lemma_total_prefix_bounded(results, k + 1);
        assert(results.take(k + 1).drop_last() =~= results.take(k));
    } else {
        assert(results.take(k) =~= results);
    }
}

/// The `/recover` command: no options.
pub open spec fn recover_command_spec() -> CommandView {
    chat_command("recover"@, "slash_command.recover_command_description"@, Seq::empty())
}

impl RecoverCommand {
    /// What `/recover` offers to Discord.
    pub fn definition(&self) -> (r: CommandSpec)
        ensures
            r@ == recover_command_spec(),
    {
        let r = chat_command_spec("recover", "slash_command.recover_command_description", Vec::new());
        assert(r@ =~~= recover_command_spec());
        r
    }
}

} // verus!
