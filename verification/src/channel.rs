//! The update channel: the ordered, unbounded queue that carries selection
//! commands from the serving side to the render side.

use std::collections::VecDeque;
use vstd::prelude::*;

verus! {

/// A validated request to display one file.
#[derive(Debug, PartialEq, Eq)]
pub struct SelectionCommand {
    /// Path of the file to display: the resource directory joined with the
    /// name of a catalog entry.
    pub target_file: String,
}

impl View for SelectionCommand {
    type V = Seq<char>;

    /// A command is seen as the path it names.
    open spec fn view(&self) -> Seq<char> {
        self.target_file@
    }
}

/// The targets of a sequence of commands, in order.
pub open spec fn command_targets(commands: Seq<SelectionCommand>) -> Seq<Seq<char>> {
    Seq::new(commands.len(), |i: int| commands[i]@)
}

/// The queue after `sent` have been sent, in that order, to a channel that
/// held `pending`.
pub open spec fn spec_after_sends(pending: Seq<Seq<char>>, sent: Seq<Seq<char>>) -> Seq<
    Seq<char>,
>
    decreases sent.len(),
{
    if sent.len() == 0 {
        pending
    } else {
        spec_after_sends(pending.push(sent[0]), sent.drop_first())
    }
}

/// What the `n` next receives deliver from a channel that holds `pending`,
/// in the order of delivery. An empty channel delivers nothing.
pub open spec fn spec_deliveries(pending: Seq<Seq<char>>, n: nat) -> Seq<Seq<char>>
    decreases n,
{
    if n == 0 || pending.len() == 0 {
        Seq::empty()
    } else {
        seq![pending[0]] + spec_deliveries(pending.subrange(1, pending.len() as int), (n - 1) as nat)
    }
}

/// Sending appends: the queue after the sends is the old queue followed by
/// what was sent.
pub proof fn lemma_after_sends(pending: Seq<Seq<char>>, sent: Seq<Seq<char>>)
    ensures
        spec_after_sends(pending, sent) == pending + sent,
    decreases sent.len(),
{
    if sent.len() == 0 {
        assert(pending + sent =~= pending);
    } else {
        lemma_after_sends(pending.push(sent[0]), sent.drop_first());
        assert(pending.push(sent[0]) + sent.drop_first() =~= pending + sent);
    }
}

/// Receiving takes from the front: `n` receives deliver the first `n` pending
/// commands, each once.
pub proof fn lemma_deliveries(pending: Seq<Seq<char>>, n: nat)
    requires
        n <= pending.len(),
    ensures
        spec_deliveries(pending, n) == pending.take(n as int),
    decreases n,
{
    if n == 0 {
        assert(pending.take(0) =~= Seq::<Seq<char>>::empty());
    } else {
        let rest = pending.subrange(1, pending.len() as int);
        lemma_deliveries(rest, (n - 1) as nat);
        assert(seq![pending[0]] + rest.take(n - 1) =~= pending.take(n as int));
    }
}

/// First in, first out: commands sent to an empty channel are delivered in
/// the order in which they were sent, each exactly once and none lost.
pub proof fn lemma_fifo(sent: Seq<Seq<char>>)
    ensures
        spec_deliveries(spec_after_sends(Seq::empty(), sent), sent.len()) == sent,
{
    lemma_after_sends(Seq::empty(), sent);
    assert(Seq::<Seq<char>>::empty() + sent =~= sent);
    lemma_deliveries(sent, sent.len());
    assert(sent.take(sent.len() as int) =~= sent);
}

/// The queue of commands between the serving side and the render side.
pub struct UpdateChannel {
    queue: VecDeque<SelectionCommand>,
}

impl View for UpdateChannel {
    type V = Seq<Seq<char>>;

    /// A channel is seen as the targets of its pending commands, oldest first.
    closed spec fn view(&self) -> Seq<Seq<char>> {
        command_targets(self.queue@)
    }
}

impl UpdateChannel {
    /// An empty channel.
    pub fn new() -> (channel: UpdateChannel)
        ensures
            channel@ == Seq::<Seq<char>>::empty(),
    {
        let channel = UpdateChannel { queue: VecDeque::new() };
        assert(channel@ =~= Seq::<Seq<char>>::empty());
        channel
    }

    /// Enqueues `command` behind every pending command. Never blocks and
    /// never drops a command.
    pub fn send(&mut self, command: SelectionCommand)
        ensures
            final(self)@ == old(self)@.push(command@),
            final(self)@ == spec_after_sends(old(self)@, seq![command@]),
    {
        self.queue.push_back(command);
        assert(self@ =~= old(self)@.push(command@));
        proof {
            let one = seq![command@];
            assert(one.drop_first() =~= Seq::<Seq<char>>::empty());
            assert(spec_after_sends(old(self)@.push(one[0]), one.drop_first()) == old(self)@.push(
                command@,
            ));
        }
    }

    /// Dequeues the oldest pending command, if there is one.
    pub fn receive(&mut self) -> (command: Option<SelectionCommand>)
        ensures
            old(self)@.len() == 0 ==> command.is_none() && final(self)@ == old(self)@,
            old(self)@.len() > 0 ==> command.is_some() && command.unwrap()@ == old(self)@[0]
                && final(self)@ == old(self)@.subrange(1, old(self)@.len() as int),
            spec_deliveries(old(self)@, 1) == match command {
                Some(c) => seq![c@],
                None => Seq::empty(),
            },
    {
        let command = self.queue.pop_front();
        assert(old(self)@.len() > 0 ==> self@ =~= old(self)@.subrange(1, old(self)@.len() as int));
        proof {
            if old(self)@.len() > 0 {
                assert(spec_deliveries(
                    old(self)@.subrange(1, old(self)@.len() as int),
                    0,
                ) =~= Seq::<Seq<char>>::empty());
                assert(spec_deliveries(old(self)@, 1) =~= seq![old(self)@[0]]);
            }
        }
        command
    }

    /// The number of commands not yet delivered.
    pub fn pending(&self) -> (n: usize)
        ensures
            n == self@.len(),
    {
        self.queue.len()
    }
}

} // verus!
