//! Which channels the bot sits in: what an invitation and a kick change.

use vstd::prelude::*;
use crate::text::{same_text, texts};

verus! {

/// `channels` without every occurrence of `channel`, order kept.
pub open spec fn without_channel(channels: Seq<Seq<char>>, channel: Seq<char>) -> Seq<Seq<char>>
    decreases channels.len(),
{
    if channels.len() == 0 {
        Seq::empty()
    } else if channels.last() == channel {
        without_channel(channels.drop_last(), channel)
    } else {
        without_channel(channels.drop_last(), channel).push(channels.last())
    }
}

/// Nothing that `without_channel` leaves is the channel taken out, and
/// nothing else is lost.
pub proof fn lemma_without_channel(channels: Seq<Seq<char>>, channel: Seq<char>)
    ensures
        !without_channel(channels, channel).contains(channel),
        forall|c: Seq<char>|
            c != channel && channels.contains(c) ==> #[trigger] without_channel(
                channels,
                channel,
            ).contains(c),
        forall|c: Seq<char>| #[trigger]
            without_channel(channels, channel).contains(c) ==> channels.contains(c),
    decreases channels.len(),
{
    if channels.len() > 0 {
        let head = channels.drop_last();
        let last = channels.last();
        lemma_without_channel(head, channel);
        let kept = without_channel(head, channel);
        let out = without_channel(channels, channel);
        assert forall|c: Seq<char>| c != channel && channels.contains(c) implies out.contains(
            c,
        ) by {
            let i = choose|i: int| 0 <= i < channels.len() && channels[i] == c;
            if i == channels.len() - 1 {
                assert(out[out.len() - 1] == c);
            } else {
                assert(head[i] == c);
                assert(kept.contains(c));
                let j = choose|j: int| 0 <= j < kept.len() && kept[j] == c;
                assert(out[j] == c);
            }
        }
        assert forall|c: Seq<char>| out.contains(c) implies channels.contains(c) by {
            let j = choose|j: int| 0 <= j < out.len() && out[j] == c;
            if j < kept.len() {
                assert(kept[j] == c);
                assert(kept.contains(c));
                let i = choose|i: int| 0 <= i < head.len() && head[i] == c;
                assert(channels[i] == c);
            } else {
                assert(channels[channels.len() - 1] == c);
            }
        }
        if out.contains(channel) {
            let j = choose|j: int| 0 <= j < out.len() && out[j] == channel;
            if j < kept.len() {
                assert(kept[j] == channel);
                assert(kept.contains(channel));
            }
        }
    }
}

/// Whether an invitation or a kick is about the bot itself.
pub fn concerns_bot(own_nickname: &str, nickname: &str) -> (r: bool)
    ensures
        r == (nickname@ == own_nickname@),
{
    same_text(nickname, own_nickname)
}

/// Decides on an invitation: the channel to join where the one invited is
/// the bot itself, else nothing.
pub fn process_invite(own_nickname: &str, channel: &str, nickname: &str) -> (r: Option<String>)
    ensures
        r is Some <==> nickname@ == own_nickname@,
        r matches Some(c) ==> c@ == channel@,
{
    if concerns_bot(own_nickname, nickname) {
        Some(String::from_str(channel))
    } else {
        None
    }
}

/// The channel list once `channel` has been joined: the list with the
/// channel at its end.
pub fn channels_after_join(channels: Vec<String>, channel: &str) -> (r: Vec<String>)
    ensures
        texts(r@) == texts(channels@).push(channel@),
{
    let mut out = channels;
    let ghost before = texts(out@);
    out.push(String::from_str(channel));
    assert(texts(out@) =~= before.push(channel@));
    out
}

/// Decides on a kick: where the one kicked is the bot itself, the channel
/// list without that channel, to be stored; else nothing.
pub fn process_kick(own_nickname: &str, channel: &str, nickname: &str, channels: &Vec<String>) -> (r:
    Option<Vec<String>>)
    ensures
        r is Some <==> nickname@ == own_nickname@,
        r matches Some(left) ==> texts(left@) == without_channel(texts(channels@), channel@),
{
    if !concerns_bot(own_nickname, nickname) {
        return None;
    }
    let ghost all = texts(channels@);
    let mut left: Vec<String> = Vec::new();
    let mut i: usize = 0;
    assert(texts(left@) =~= without_channel(all.take(0), channel@));
    while i < channels.len()
        invariant
            i <= channels.len(),
            all == texts(channels@),
            texts(left@) == without_channel(all.take(i as int), channel@),
        decreases channels.len() - i,
    {
        proof {
            assert(all.take(i + 1).drop_last() =~= all.take(i as int));
            assert(all.take(i + 1).last() == channels@[i as int]@);
        }
        let ghost before = texts(left@);
        if !same_text(channels[i].as_str(), channel) {
            left.push(channels[i].clone());
            assert(texts(left@) =~= before.push(channels@[i as int]@));
        }
        i = i + 1;
    }
    assert(all.take(channels.len() as int) =~= all);
    Some(left)
}

} // verus!
