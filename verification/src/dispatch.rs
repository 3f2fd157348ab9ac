use crate::bot::{
    chats_to_join_spec, graph_event_of, invite_action_spec, payloads_of, resources_of, Chatbot,
    MessagePayload, PayloadModel, Responder,
};
use crate::events::{Frame, FrameModel};
use crate::message::ContentModel;
use crate::resource::{ResourceModel, ShipChat};
use vstd::prelude::*;

verus! {

/// One side effect the invite handler owes the transport: the poke that
/// accepts an invite, or the acknowledgment of a consumed invite frame.
/// Each is fire-and-forget: its failure is logged by the caller and never
/// retried.  Join intents and staged replies travel beside these in the
/// cycle's outcome, each in its own list.
pub enum Effect {
    AcceptInvite { resource: ShipChat },
    AckFrame { frame_id: u64 },
}

pub enum EffectModel {
    AcceptInvite(ResourceModel),
    AckFrame(u64),
}

impl View for Effect {
    type V = EffectModel;

    open spec fn view(&self) -> EffectModel {
        match self {
            Effect::AcceptInvite { resource } => EffectModel::AcceptInvite(resource@),
            Effect::AckFrame { frame_id } => EffectModel::AckFrame(*frame_id),
        }
    }
}

pub open spec fn effects_of(es: Seq<Effect>) -> Seq<EffectModel> {
    es.map_values(|e: Effect| e@)
}

pub open spec fn frames_model(fs: Seq<Frame>) -> Seq<FrameModel> {
    fs.map_values(|f: Frame| f@)
}

/// The effects one invite-store frame owes the transport: for an actual
/// invite, the join of the inviting resource followed by the
/// acknowledgment of the frame; for anything else, nothing.
pub open spec fn invite_frame_effects(f: FrameModel) -> Seq<EffectModel> {
    match invite_action_spec(f) {
        Some(a) => seq![EffectModel::AcceptInvite(a.0), EffectModel::AckFrame(a.1)],
        None => Seq::empty(),
    }
}

/// The invite effects of a whole draining pass, in frame order, so that
/// each acknowledgment stands right after the join of the frame it
/// answers.
pub open spec fn invite_effects_spec(frames: Seq<FrameModel>) -> Seq<EffectModel>
    decreases frames.len(),
{
    if frames.len() == 0 {
        Seq::empty()
    } else {
        invite_effects_spec(frames.drop_last()) + invite_frame_effects(frames.last())
    }
}

/// Every join intent of a cycle's metadata frames, in frame order.  The
/// list is built afresh each cycle: nothing carries over, and nothing
/// deduplicates against earlier cycles.
pub open spec fn cycle_joins(frames: Seq<FrameModel>) -> Seq<ResourceModel>
    decreases frames.len(),
{
    if frames.len() == 0 {
        Seq::empty()
    } else {
        cycle_joins(frames.drop_last()) + chats_to_join_spec(frames.last().text)
    }
}

/// The replies a cycle stages, given one responder choice per graph frame:
/// a frame that carries no whole graph update stages nothing, one the
/// bridge itself authored stages nothing whatever the choice says, and any
/// other frame stages the chosen reply, if there is one, against the
/// frame's own origin resource.
pub open spec fn staged_of(
    frames: Seq<FrameModel>,
    identity: Seq<char>,
    replies: Seq<Option<Seq<ContentModel>>>,
) -> Seq<PayloadModel>
    decreases frames.len(),
{
    if frames.len() == 0 {
        Seq::empty()
    } else {
        staged_of(frames.drop_last(), identity, replies.drop_last()) + (
        match graph_event_of(frames.last().text) {
            Some(g) => if g.author == identity {
                Seq::empty()
            } else {
                match replies.last() {
                    Some(mm) => seq![PayloadModel { message: mm, ship_chat: g.resource }],
                    None => Seq::empty(),
                }
            },
            None => Seq::empty(),
        })
    }
}

/// What one cycle of the dispatch loop has decided by the end of its
/// draining pass: the invite effects to perform, the chats to join, and
/// the replies to post, in that order.
pub struct CycleOutcome {
    pub invite_effects: Vec<Effect>,
    pub chats_to_join: Vec<ShipChat>,
    pub messages_to_send: Vec<MessagePayload>,
}

impl<R: Responder> Chatbot<R> {
    /// One cycle of the dispatch loop, from the frames drained off the
    /// three streams to everything the transport is then asked to do.
    /// Frames are handled one by one and independently: a frame that
    /// decodes to nothing contributes nothing and touches nothing else.
    pub fn process_cycle(
        &self,
        graph_frames: &Vec<Frame>,
        invite_frames: &Vec<Frame>,
        metadata_frames: &Vec<Frame>,
    ) -> (r: CycleOutcome)
        ensures
            effects_of(r.invite_effects@) == invite_effects_spec(
                frames_model(invite_frames@),
            ),
            resources_of(r.chats_to_join@) == cycle_joins(frames_model(metadata_frames@)),
            exists|replies: Seq<Option<Seq<ContentModel>>>|
                replies.len() == graph_frames@.len() && payloads_of(r.messages_to_send@)
                    == staged_of(frames_model(graph_frames@), self.ship_name@, replies),
    {
        let ghost ifm = frames_model(invite_frames@);
        let mut invite_effects: Vec<Effect> = Vec::new();
        let n1 = invite_frames.len();
        let mut i: usize = 0;
        proof {
            assert(ifm.take(0) =~= Seq::<FrameModel>::empty());
            assert(effects_of(invite_effects@) =~= invite_effects_spec(ifm.take(0)));
        }
        while i < n1
            invariant
                n1 == invite_frames@.len(),
                0 <= i <= n1,
                ifm == frames_model(invite_frames@),
                ifm.len() == n1,
                forall|j: int| 0 <= j < n1 ==> ifm[j] == invite_frames@[j]@,
                effects_of(invite_effects@) == invite_effects_spec(ifm.take(i as int)),
            decreases n1 - i,
        {
            proof {
                assert(ifm.take(i as int + 1).drop_last() =~= ifm.take(i as int));
                assert(ifm.take(i as int + 1).last() == ifm[i as int]);
            }
            let ghost prev = invite_effects@;
            match self.invite_accept(&invite_frames[i]) {
                Some(a) => {
                    let ghost rm = a.resource@;
                    let ghost ack = a.ack_id;
                    invite_effects.push(Effect::AcceptInvite { resource: a.resource });
                    invite_effects.push(Effect::AckFrame { frame_id: a.ack_id });
                    proof {
                        assert(invite_frame_effects(ifm[i as int]) =~= seq![
                            EffectModel::AcceptInvite(rm),
                            EffectModel::AckFrame(ack),
                        ]);
                        assert(effects_of(invite_effects@) =~= invite_effects_spec(
                            ifm.take(i as int + 1),
                        ));
                    }
                },
                None => {
                    proof {
                        assert(invite_frame_effects(ifm[i as int]) =~= Seq::<EffectModel>::empty());
                        assert(effects_of(invite_effects@) =~= invite_effects_spec(
                            ifm.take(i as int + 1),
                        ));
                    }
                },
            }
            i += 1;
        }
        proof {
            assert(ifm.take(n1 as int) =~= ifm);
        }
        let ghost mfm = frames_model(metadata_frames@);
        let mut chats_to_join: Vec<ShipChat> = Vec::new();
        let n2 = metadata_frames.len();
        let mut i2: usize = 0;
        proof {
            assert(mfm.take(0) =~= Seq::<FrameModel>::empty());
            assert(resources_of(chats_to_join@) =~= cycle_joins(mfm.take(0)));
        }
        while i2 < n2
            invariant
                n2 == metadata_frames@.len(),
                0 <= i2 <= n2,
                mfm == frames_model(metadata_frames@),
                mfm.len() == n2,
                forall|j: int| 0 <= j < n2 ==> mfm[j] == metadata_frames@[j]@,
                resources_of(chats_to_join@) == cycle_joins(mfm.take(i2 as int)),
            decreases n2 - i2,
        {
            proof {
                assert(mfm.take(i2 as int + 1).drop_last() =~= mfm.take(i2 as int));
                assert(mfm.take(i2 as int + 1).last() == mfm[i2 as int]);
            }
            let found = self.get_chats_to_join(metadata_frames[i2].data.as_str());
            let m = found.len();
            let mut k: usize = 0;
            proof {
                assert(resources_of(found@).take(0) =~= Seq::<ResourceModel>::empty());
                assert(resources_of(chats_to_join@) =~= cycle_joins(mfm.take(i2 as int))
                    + resources_of(found@).take(0));
            }
            while k < m
                invariant
                    m == found@.len(),
                    0 <= k <= m,
                    mfm.len() == n2,
                    0 <= i2 < n2,
                    resources_of(found@) == chats_to_join_spec(mfm[i2 as int].text),
                    resources_of(chats_to_join@) == cycle_joins(mfm.take(i2 as int))
                        + resources_of(found@).take(k as int),
                decreases m - k,
            {
                let ghost prev_chats = chats_to_join@;
                let copy = found[k].duplicate();
                let ghost cv = copy@;
                chats_to_join.push(copy);
                proof {
                    assert(resources_of(chats_to_join@) =~= resources_of(prev_chats).push(cv));
                    assert(resources_of(found@).take(k as int + 1) =~= resources_of(
                        found@,
                    ).take(k as int).push(found@[k as int]@));
                    assert(resources_of(chats_to_join@) =~= cycle_joins(mfm.take(i2 as int))
                        + resources_of(found@).take(k as int + 1));
                }
                k += 1;
            }
            proof {
                assert(resources_of(found@).take(m as int) =~= resources_of(found@));
                assert(resources_of(chats_to_join@) =~= cycle_joins(mfm.take(i2 as int + 1)));
            }
            i2 += 1;
        }
        proof {
            assert(mfm.take(n2 as int) =~= mfm);
        }
        let ghost gfm = frames_model(graph_frames@);
        let mut messages_to_send: Vec<MessagePayload> = Vec::new();
        let ghost mut replies: Seq<Option<Seq<ContentModel>>> = Seq::empty();
        let n3 = graph_frames.len();
        let mut i3: usize = 0;
        proof {
            assert(gfm.take(0) =~= Seq::<FrameModel>::empty());
            assert(payloads_of(messages_to_send@) =~= staged_of(
                gfm.take(0),
                self.ship_name@,
                replies,
            ));
        }
        while i3 < n3
            invariant
                n3 == graph_frames@.len(),
                0 <= i3 <= n3,
                gfm == frames_model(graph_frames@),
                gfm.len() == n3,
                forall|j: int| 0 <= j < n3 ==> gfm[j] == graph_frames@[j]@,
                replies.len() == i3,
                payloads_of(messages_to_send@) == staged_of(
                    gfm.take(i3 as int),
                    self.ship_name@,
                    replies,
                ),
            decreases n3 - i3,
        {
            proof {
                assert(gfm.take(i3 as int + 1).drop_last() =~= gfm.take(i3 as int));
                assert(gfm.take(i3 as int + 1).last() == gfm[i3 as int]);
            }
            let mut found = self.get_messages_to_send(graph_frames[i3].data.as_str());
            let ghost choice = if found@.len() == 1 {
                Some(found@[0]@.message)
            } else {
                None::<Seq<ContentModel>>
            };
            let ghost prev_replies = replies;
            let ghost prev_msgs = messages_to_send@;
            proof {
                replies = replies.push(choice);
                assert(replies.drop_last() =~= prev_replies);
                assert(replies.last() == choice);
            }
            match found.pop() {
                Some(p) => {
                    messages_to_send.push(p);
                },
                None => {},
            }
            proof {
                assert(payloads_of(messages_to_send@) =~= staged_of(
                    gfm.take(i3 as int + 1),
                    self.ship_name@,
                    replies,
                ));
            }
            i3 += 1;
        }
        proof {
            assert(gfm.take(n3 as int) =~= gfm);
        }
        CycleOutcome { invite_effects, chats_to_join, messages_to_send }
    }
}

proof fn lemma_unrecognized_contributes_nothing(f: FrameModel)
    requires
        crate::events::frame_event_model(f) == crate::events::EventModel::Unrecognized,
    ensures
        chats_to_join_spec(f.text) == Seq::<ResourceModel>::empty(),
        invite_frame_effects(f) == Seq::<EffectModel>::empty(),
        graph_event_of(f.text) is None,
{
    match crate::jsonval::json_of(f.text) {
        Some(m) => {
            assert(crate::events::decode_graph(m) is None);
            assert(crate::events::decode_invite(f.id, m) is None);
            assert(crate::events::decode_metadata(m) is None);
        },
        None => {},
    }
}

/// Law: a malformed or unrecognized frame in a draining pass is skipped in
/// place and never keeps the remaining frames of the pass from being
/// handled — the pass's invite effects, join intents and staged replies
/// are exactly those of the pass without that frame, whatever the
/// responder answers.
pub proof fn lemma_bad_frame_never_blocks(
    pre: Seq<FrameModel>,
    bad: FrameModel,
    post: Seq<FrameModel>,
    identity: Seq<char>,
    rpre: Seq<Option<Seq<ContentModel>>>,
    rbad: Option<Seq<ContentModel>>,
    rpost: Seq<Option<Seq<ContentModel>>>,
)
    requires
        crate::events::frame_event_model(bad) == crate::events::EventModel::Unrecognized,
        rpre.len() == pre.len(),
        rpost.len() == post.len(),
    ensures
        invite_effects_spec(pre + seq![bad] + post) == invite_effects_spec(pre + post),
        cycle_joins(pre + seq![bad] + post) == cycle_joins(pre + post),
        staged_of(pre + seq![bad] + post, identity, rpre + seq![rbad] + rpost) == staged_of(
            pre + post,
            identity,
            rpre + rpost,
        ),
    decreases post.len(),
{
    lemma_unrecognized_contributes_nothing(bad);
    if post.len() == 0 {
        assert(pre + seq![bad] + post =~= pre + seq![bad]);
        assert(rpre + seq![rbad] + rpost =~= rpre + seq![rbad]);
        assert(pre + post =~= pre);
        assert(rpre + rpost =~= rpre);
        assert((pre + seq![bad]).drop_last() =~= pre);
        assert((pre + seq![bad]).last() == bad);
        assert((rpre + seq![rbad]).drop_last() =~= rpre);
        assert((rpre + seq![rbad]).last() == rbad);
        assert(invite_effects_spec(pre + seq![bad]) =~= invite_effects_spec(pre));
        assert(cycle_joins(pre + seq![bad]) =~= cycle_joins(pre));
        assert(staged_of(pre + seq![bad], identity, rpre + seq![rbad]) =~= staged_of(
            pre,
            identity,
            rpre,
        ));
    } else {
        lemma_bad_frame_never_blocks(
            pre,
            bad,
            post.drop_last(),
            identity,
            rpre,
            rbad,
            rpost.drop_last(),
        );
        let with_bad = pre + seq![bad] + post;
        let without_bad = pre + post;
        let rwith = rpre + seq![rbad] + rpost;
        let rwithout = rpre + rpost;
        assert(with_bad.drop_last() =~= pre + seq![bad] + post.drop_last());
        assert(with_bad.last() == post.last());
        assert(without_bad.drop_last() =~= pre + post.drop_last());
        assert(without_bad.last() == post.last());
        assert(rwith.drop_last() =~= rpre + seq![rbad] + rpost.drop_last());
        assert(rwith.last() == rpost.last());
        assert(rwithout.drop_last() =~= rpre + rpost.drop_last());
        assert(rwithout.last() == rpost.last());
    }
}

/// Whether a frame cannot trigger the responder: either it carries no
/// whole graph update, or the update was authored by the bridge itself.
pub open spec fn self_or_silent(f: FrameModel, identity: Seq<char>) -> bool {
    match graph_event_of(f.text) {
        Some(g) => g.author == identity,
        None => true,
    }
}

/// Law: the self-origin filter suppresses a whole pass — when every graph
/// frame of a pass that carries a whole update was authored by the bridge
/// itself, the pass stages no reply at all, whatever the responder would
/// have answered.
pub proof fn lemma_self_origin_suppresses_pass(
    frames: Seq<FrameModel>,
    identity: Seq<char>,
    replies: Seq<Option<Seq<ContentModel>>>,
)
    requires
        forall|i: int| 0 <= i < frames.len() ==> self_or_silent(#[trigger] frames[i], identity),
    ensures
        staged_of(frames, identity, replies).len() == 0,
    decreases frames.len(),
{
    if frames.len() > 0 {
        assert forall|i: int| 0 <= i < frames.drop_last().len() implies self_or_silent(
            #[trigger] frames.drop_last()[i],
            identity,
        ) by {
            assert(frames.drop_last()[i] == frames[i]);
        }
        lemma_self_origin_suppresses_pass(frames.drop_last(), identity, replies.drop_last());
        assert(self_or_silent(frames[frames.len() - 1], identity));
    }
}

proof fn lemma_frame_joins_in_cycle(frames: Seq<FrameModel>, i: int, rc: ResourceModel)
    requires
        0 <= i < frames.len(),
        chats_to_join_spec(frames[i].text).contains(rc),
    ensures
        cycle_joins(frames).contains(rc),
    decreases frames.len(),
{
    let head = cycle_joins(frames.drop_last());
    let tail = chats_to_join_spec(frames.last().text);
    if i == frames.len() - 1 {
        let k = choose|k: int| 0 <= k < tail.len() && tail[k] == rc;
        assert(cycle_joins(frames)[head.len() + k] == rc);
    } else {
        assert(frames.drop_last()[i] == frames[i]);
        lemma_frame_joins_in_cycle(frames.drop_last(), i, rc);
        let k = choose|k: int| 0 <= k < head.len() && head[k] == rc;
        assert(cycle_joins(frames)[k] == rc);
    }
}

/// Law: join intents are rebuilt from scratch every cycle and nothing
/// remembers what an earlier cycle joined.  A metadata frame whose update
/// names a resource produces a join intent in every cycle that delivers
/// it: the same associations entry delivered in two cycles yields two join
/// intents, one per cycle, not one.
pub proof fn lemma_join_intents_not_deduplicated(
    cycle1: Seq<FrameModel>,
    cycle2: Seq<FrameModel>,
    i1: int,
    i2: int,
    rc: ResourceModel,
)
    requires
        0 <= i1 < cycle1.len(),
        0 <= i2 < cycle2.len(),
        chats_to_join_spec(cycle1[i1].text).contains(rc),
        chats_to_join_spec(cycle2[i2].text).contains(rc),
    ensures
        cycle_joins(cycle1).contains(rc),
        cycle_joins(cycle2).contains(rc),
{
    lemma_frame_joins_in_cycle(cycle1, i1, rc);
    lemma_frame_joins_in_cycle(cycle2, i2, rc);
}

} // verus!
