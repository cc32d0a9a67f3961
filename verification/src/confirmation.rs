//! The text shown to the user before a network change runs.
use vstd::prelude::*;
use vstd::string::StringExecFns;

use crate::model::{AgentImpact, AgentProposal, AgentStateChange};

verus! {

/// The lines joined with a line feed between each two.
pub open spec fn joined(lines: Seq<Seq<char>>) -> Seq<char>
    decreases lines.len(),
{
    if lines.len() == 0 {
        Seq::empty()
    } else if lines.len() == 1 {
        lines[0]
    } else {
        joined(lines.drop_last()) + "\n"@ + lines.last()
    }
}

/// `- field: before -> after`, with the stable codes of each.
pub open spec fn change_line(change: AgentStateChange) -> Seq<char> {
    "- "@ + change.field.code() + ": "@ + change.before.code() + " -> "@ + change.after.code()
}

/// `- impact`, with the stable code of the impact.
pub open spec fn impact_line(impact: AgentImpact) -> Seq<char> {
    "- "@ + impact.code()
}

/// The lines of the confirmation: a title, the risk, every change, then every impact under a
/// heading that is left out when there are none.
pub open spec fn confirmation_lines(proposal: AgentProposal) -> Seq<Seq<char>> {
    let head = seq![
        "Confirm Chimera network change"@,
        "risk: "@ + proposal.risk.code(),
        "changes:"@,
    ];
    let changes = proposal.changes@.map_values(|c: AgentStateChange| change_line(c));
    let impacts = if proposal.impacts@.len() == 0 {
        Seq::empty()
    } else {
        seq!["impacts:"@] + proposal.impacts@.map_values(|i: AgentImpact| impact_line(i))
    };
    head + changes + impacts
}

pub open spec fn confirmation_message(proposal: AgentProposal) -> Seq<char> {
    joined(confirmation_lines(proposal))
}

/// Appends a line feed and then a further line to a text made of one or more lines.
fn push_line(message: &mut String, line: &str, Ghost(lines): Ghost<Seq<Seq<char>>>)
    requires
        lines.len() >= 1,
        old(message)@ == joined(lines),
    ensures
        final(message)@ == joined(lines.push(line@)),
{
    message.append("\n");
    message.append(line);
    assert(lines.push(line@).drop_last() =~= lines);
}

/// The stable code line of one change.
fn change_text(change: AgentStateChange) -> (text: String)
    ensures
        text@ == change_line(change),
{
    let mut text = String::from_str("- ");
    text.append(change.field.as_str());
    text.append(": ");
    text.append(change.before.as_str());
    text.append(" -> ");
    text.append(change.after.as_str());
    text
}

pub fn proposal_confirmation_message(proposal: &AgentProposal) -> (message: String)
    ensures
        message@ == confirmation_message(*proposal),
{
    let ghost mut lines: Seq<Seq<char>> = seq!["Confirm Chimera network change"@];
    let mut message = String::from_str("Confirm Chimera network change");
    let mut risk_line = String::from_str("risk: ");
    risk_line.append(proposal.risk.as_str());
    push_line(&mut message, risk_line.as_str(), Ghost(lines));
    proof {
        lines = lines.push(risk_line@);
    }
    push_line(&mut message, "changes:", Ghost(lines));
    proof {
        lines = lines.push("changes:"@);
    }
    let ghost head = lines;
    let mut i: usize = 0;
    while i < proposal.changes.len()
        invariant
            i <= proposal.changes@.len(),
            head.len() == 3,
            lines == head + proposal.changes@.take(i as int).map_values(
                |c: AgentStateChange| change_line(c),
            ),
            message@ == joined(lines),
        decreases proposal.changes@.len() - i,
    {
        let line = change_text(proposal.changes[i]);
        push_line(&mut message, line.as_str(), Ghost(lines));
        proof {
            lines = lines.push(line@);
            assert(lines =~= head + proposal.changes@.take(i + 1).map_values(
                |c: AgentStateChange| change_line(c),
            ));
        }
        i = i + 1;
    }
    assert(proposal.changes@.take(proposal.changes@.len() as int) =~= proposal.changes@);
    let ghost with_changes = lines;
    if proposal.impacts.len() > 0 {
        push_line(&mut message, "impacts:", Ghost(lines));
        proof {
            lines = lines.push("impacts:"@);
        }
        let mut j: usize = 0;
        while j < proposal.impacts.len()
            invariant
                j <= proposal.impacts@.len(),
                with_changes.len() >= 3,
                lines == with_changes + seq!["impacts:"@] + proposal.impacts@.take(j as int).map_values(
                    |x: AgentImpact| impact_line(x),
                ),
                message@ == joined(lines),
            decreases proposal.impacts@.len() - j,
        {
            let mut line = String::from_str("- ");
            line.append(proposal.impacts[j].as_str());
            push_line(&mut message, line.as_str(), Ghost(lines));
            proof {
                lines = lines.push(line@);
                assert(lines =~= with_changes + seq!["impacts:"@] + proposal.impacts@.take(j + 1).map_values(
                    |x: AgentImpact| impact_line(x),
                ));
            }
            j = j + 1;
        }
        assert(proposal.impacts@.take(proposal.impacts@.len() as int) =~= proposal.impacts@);
    }
    assert(lines =~= confirmation_lines(*proposal));
    message
}

/// The confirmation discloses the risk, every change and every impact of the proposal.
pub proof fn lemma_confirmation_discloses_everything(proposal: AgentProposal)
    ensures
        confirmation_lines(proposal)[1] == "risk: "@ + proposal.risk.code(),
        forall|i: int|
            0 <= i < proposal.changes@.len() ==> confirmation_lines(proposal).contains(
                change_line(#[trigger] proposal.changes@[i]),
            ),
        forall|j: int|
            0 <= j < proposal.impacts@.len() ==> confirmation_lines(proposal).contains(
                impact_line(#[trigger] proposal.impacts@[j]),
            ),
{
    let lines = confirmation_lines(proposal);
    let changes = proposal.changes@.map_values(|c: AgentStateChange| change_line(c));
    assert forall|i: int| 0 <= i < proposal.changes@.len() implies lines.contains(
        change_line(#[trigger] proposal.changes@[i]),
    ) by {
        assert(lines[3 + i] == changes[i]);
    }
    assert forall|j: int| 0 <= j < proposal.impacts@.len() implies lines.contains(
        impact_line(#[trigger] proposal.impacts@[j]),
    ) by {
        let impacts = seq!["impacts:"@] + proposal.impacts@.map_values(|x: AgentImpact| impact_line(x));
        assert(impacts[1 + j] == impact_line(proposal.impacts@[j]));
        assert(lines[3 + changes.len() + 1 + j] == impacts[1 + j]);
    }
}

} // verus!
