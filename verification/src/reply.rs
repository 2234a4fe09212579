use vstd::prelude::*;

use crate::flags::{
    components_v2_bit, ephemeral_bit, suppress_embeds_bit, ClearFlags, MessageFlags,
};
use twilight_model::channel::message::{AllowedMentions, Component, Embed};
use twilight_model::http::attachment::Attachment;
use twilight_model::poll::Poll;

verus! {

/// Twilight's allowed mentions of a message, carried through unopened.
#[verifier::external_type_specification]
#[verifier::external_body]
pub struct ExAllowedMentions(AllowedMentions);

/// Twilight's message component, carried through unopened.
#[verifier::external_type_specification]
#[verifier::external_body]
pub struct ExComponent(Component);

/// Twilight's message embed, carried through unopened.
#[verifier::external_type_specification]
#[verifier::external_body]
pub struct ExEmbed(Embed);

/// Twilight's attachment of an HTTP request, carried through unopened.
#[verifier::external_type_specification]
#[verifier::external_body]
pub struct ExAttachment(Attachment);

/// Twilight's message poll, carried through unopened.
#[verifier::external_type_specification]
#[verifier::external_body]
pub struct ExPoll(Poll);

/// The data of an interaction response that a reply can set.
#[derive(Clone, Debug, PartialEq)]
pub struct ResponseData {
    pub allowed_mentions: Option<AllowedMentions>,
    pub attachments: Option<Vec<Attachment>>,
    pub components: Option<Vec<Component>>,
    pub content: Option<String>,
    pub embeds: Option<Vec<Embed>>,
    pub flags: Option<MessageFlags>,
    pub tts: Option<bool>,
    pub poll: Option<Poll>,
}

/// The contents of a [`ResponseData`], with lists and text as sequences.
pub struct ResponseDataView {
    pub allowed_mentions: Option<AllowedMentions>,
    pub attachments: Option<Seq<Attachment>>,
    pub components: Option<Seq<Component>>,
    pub content: Option<Seq<char>>,
    pub embeds: Option<Seq<Embed>>,
    pub flags: Option<u64>,
    pub tts: Option<bool>,
    pub poll: Option<Poll>,
}

pub open spec fn opt_seq<T>(o: Option<Vec<T>>) -> Option<Seq<T>> {
    match o {
        Some(v) => Some(v@),
        None => None,
    }
}

impl View for ResponseData {
    type V = ResponseDataView;

    open spec fn view(&self) -> ResponseDataView {
        ResponseDataView {
            allowed_mentions: self.allowed_mentions,
            attachments: opt_seq(self.attachments),
            components: opt_seq(self.components),
            content: match self.content {
                Some(s) => Some(s@),
                None => None,
            },
            embeds: opt_seq(self.embeds),
            flags: match self.flags {
                Some(f) => Some(f@),
                None => None,
            },
            tts: self.tts,
            poll: self.poll,
        }
    }
}

/// The response data of an empty reply: nothing is set.
pub open spec fn empty_data() -> ResponseDataView {
    ResponseDataView {
        allowed_mentions: None,
        attachments: None,
        components: None,
        content: None,
        embeds: None,
        flags: None,
        tts: None,
        poll: None,
    }
}

/// The contents of a reply: its response data, and which parts of an
/// existing response an edit with it removes.
pub struct ReplyView {
    pub data: ResponseDataView,
    pub clear: ClearFlags,
}

/// A reply to be sent in response to a command interaction.
pub struct CreateReply {
    data: ResponseData,
    clear_flags: ClearFlags,
}

impl View for CreateReply {
    type V = ReplyView;

    closed spec fn view(&self) -> ReplyView {
        ReplyView { data: self.data@, clear: self.clear_flags }
    }
}

/// How an edit treats one part of the existing response.
#[derive(Clone, Copy, Debug, PartialEq, Eq, Structural)]
pub enum FieldEdit {
    /// Replace it with the reply's value.
    Replace,
    /// Remove it.
    Remove,
    /// Leave it as it is.
    Keep,
}

/// What editing an existing response with a reply does to each part.
#[derive(Clone, Copy, Debug, PartialEq, Eq, Structural)]
pub struct ReplyUpdate {
    pub content: FieldEdit,
    pub embeds: FieldEdit,
    pub components: FieldEdit,
    pub allowed_mentions: FieldEdit,
    /// Whether the reply's flags replace the response's.
    pub flags: bool,
    /// Whether the reply's attachments are added.
    pub attachments: bool,
}

/// A part the reply sets is set; else a part marked for clearing is
/// cleared; else it is kept.
pub open spec fn edit_for(present: bool, clear: bool) -> FieldEdit {
    if present {
        FieldEdit::Replace
    } else if clear {
        FieldEdit::Remove
    } else {
        FieldEdit::Keep
    }
}

/// The edit that a reply with contents `v` makes.
pub open spec fn update_for(v: ReplyView) -> ReplyUpdate {
    ReplyUpdate {
        content: edit_for(v.data.content is Some, v.clear.content),
        embeds: edit_for(v.data.embeds is Some, v.clear.embeds),
        components: edit_for(v.data.components is Some, v.clear.components),
        allowed_mentions: edit_for(v.data.allowed_mentions is Some, v.clear.mentions),
        flags: v.data.flags is Some,
        attachments: v.data.attachments is Some,
    }
}

/// The flags after adding `flags` to `old`.
pub open spec fn added_flags(old: Option<u64>, flags: u64) -> Option<u64> {
    match old {
        Some(o) => Some(o | flags),
        None => Some(flags),
    }
}

/// The flags after removing `flags` from `old`; absent flags stay absent.
pub open spec fn removed_flags(old: Option<u64>, flags: u64) -> Option<u64> {
    match old {
        Some(o) => Some(o & !flags),
        None => None,
    }
}

/// `v` with the content set to `c`.
pub open spec fn set_content(v: ReplyView, c: Seq<char>) -> ReplyView {
    ReplyView { data: ResponseDataView { content: Some(c), ..v.data }, ..v }
}

/// `v` with the content removed and marked for clearing.
pub open spec fn clear_content(v: ReplyView) -> ReplyView {
    ReplyView {
        data: ResponseDataView { content: None, ..v.data },
        clear: ClearFlags { content: true, ..v.clear },
    }
}

/// `v` with the embeds set to `es`.
pub open spec fn set_embeds(v: ReplyView, es: Seq<Embed>) -> ReplyView {
    ReplyView { data: ResponseDataView { embeds: Some(es), ..v.data }, ..v }
}

/// `v` with `e` added after its embeds.
pub open spec fn push_embed(v: ReplyView, e: Embed) -> ReplyView {
    set_embeds(
        v,
        match v.data.embeds {
            Some(es) => es.push(e),
            None => seq![e],
        },
    )
}

/// `v` with the embeds removed and marked for clearing.
pub open spec fn clear_embeds(v: ReplyView) -> ReplyView {
    ReplyView {
        data: ResponseDataView { embeds: None, ..v.data },
        clear: ClearFlags { embeds: true, ..v.clear },
    }
}

/// `v` with the components set to `cs`.
pub open spec fn set_components(v: ReplyView, cs: Seq<Component>) -> ReplyView {
    ReplyView { data: ResponseDataView { components: Some(cs), ..v.data }, ..v }
}

/// `v` with `c` added after its components.
pub open spec fn push_component(v: ReplyView, c: Component) -> ReplyView {
    set_components(
        v,
        match v.data.components {
            Some(cs) => cs.push(c),
            None => seq![c],
        },
    )
}

/// `v` with the components removed and marked for clearing.
pub open spec fn clear_components(v: ReplyView) -> ReplyView {
    ReplyView {
        data: ResponseDataView { components: None, ..v.data },
        clear: ClearFlags { components: true, ..v.clear },
    }
}

/// `v` with the allowed mentions set to `m`.
pub open spec fn set_mentions(v: ReplyView, m: AllowedMentions) -> ReplyView {
    ReplyView { data: ResponseDataView { allowed_mentions: Some(m), ..v.data }, ..v }
}

/// `v` with the allowed mentions removed and marked for clearing.
pub open spec fn clear_mentions(v: ReplyView) -> ReplyView {
    ReplyView {
        data: ResponseDataView { allowed_mentions: None, ..v.data },
        clear: ClearFlags { mentions: true, ..v.clear },
    }
}

/// `v` with the attachments set to `a`.
pub open spec fn set_attachments(v: ReplyView, a: Seq<Attachment>) -> ReplyView {
    ReplyView { data: ResponseDataView { attachments: Some(a), ..v.data }, ..v }
}

/// `v` with the flags set to `f`.
pub open spec fn set_flags(v: ReplyView, f: Option<u64>) -> ReplyView {
    ReplyView { data: ResponseDataView { flags: f, ..v.data }, ..v }
}

/// `v` with the text-to-speech setting set to `t`.
pub open spec fn set_tts(v: ReplyView, t: bool) -> ReplyView {
    ReplyView { data: ResponseDataView { tts: Some(t), ..v.data }, ..v }
}

/// `v` with the poll set to `p`.
pub open spec fn set_poll(v: ReplyView, p: Poll) -> ReplyView {
    ReplyView { data: ResponseDataView { poll: Some(p), ..v.data }, ..v }
}

/// The contents of a new reply.
pub open spec fn empty_reply() -> ReplyView {
    ReplyView {
        data: empty_data(),
        clear: ClearFlags { mentions: false, components: false, content: false, embeds: false },
    }
}

/// `v` with `bit` added to its flags when `on`, and removed when not.
pub open spec fn toggle_flag(v: ReplyView, bit: u64, on: bool) -> ReplyView {
    set_flags(
        v,
        if on {
            added_flags(v.data.flags, bit)
        } else {
            removed_flags(v.data.flags, bit)
        },
    )
}

fn edit(present: bool, clear: bool) -> (r: FieldEdit)
    ensures
        r == edit_for(present, clear),
{
    if present {
        FieldEdit::Replace
    } else if clear {
        FieldEdit::Remove
    } else {
        FieldEdit::Keep
    }
}

impl CreateReply {
    /// Create a new empty reply.
    pub fn new() -> (r: Self)
        ensures
            r@ == empty_reply(),
    {
        CreateReply {
            data: ResponseData {
                allowed_mentions: None,
                attachments: None,
                components: None,
                content: None,
                embeds: None,
                flags: None,
                tts: None,
                poll: None,
            },
            clear_flags: ClearFlags::empty(),
        }
    }

    /// The response data of this reply.
    pub fn build(self) -> (r: ResponseData)
        ensures
            r@ == self@.data,
    {
        self.data
    }

    /// What editing an existing response with this reply does to each part.
    pub fn update_plan(&self) -> (r: ReplyUpdate)
        ensures
            r == update_for(self@),
    {
        ReplyUpdate {
            content: edit(self.data.content.is_some(), self.clear_flags.content),
            embeds: edit(self.data.embeds.is_some(), self.clear_flags.embeds),
            components: edit(self.data.components.is_some(), self.clear_flags.components),
            allowed_mentions: edit(
                self.data.allowed_mentions.is_some(),
                self.clear_flags.mentions,
            ),
            flags: self.data.flags.is_some(),
            attachments: self.data.attachments.is_some(),
        }
    }

    /// Set the allowed mentions of the reply.
    pub fn allowed_mentions(self, allowed_mentions: AllowedMentions) -> (r: Self)
        ensures
            r@ == set_mentions(self@, allowed_mentions),
    {
        let mut s = self;
        s.data.allowed_mentions = Some(allowed_mentions);
        s
    }

    /// Set this reply to clear the response's allowed mentions. Only takes
    /// effect where this reply edits an existing response.
    ///
    /// Setting allowed mentions afterwards undoes this.
    pub fn clear_allowed_mentions(self) -> (r: Self)
        ensures
            r@ == clear_mentions(self@),
    {
        let mut s = self;
        s.data.allowed_mentions = None;
        s.clear_flags.mentions = true;
        s
    }

    /// Set the attachments of the message.
    pub fn attachments(self, attachments: Vec<Attachment>) -> (r: Self)
        ensures
            r@ == set_attachments(self@, attachments@),
    {
        let mut s = self;
        s.data.attachments = Some(attachments);
        s
    }

    /// Add a component to the reply. Existing components are kept.
    pub fn component(self, component: Component) -> (r: Self)
        ensures
            r@ == push_component(self@, component),
    {
        let mut s = self;
        match s.data.components {
            Some(mut components) => {
                components.push(component);
                s.data.components = Some(components);
            },
            None => {
                let mut components = Vec::new();
                components.push(component);
                s.data.components = Some(components);
            },
        }
        s
    }

    /// Set the message components of the reply.
    pub fn components(self, components: Vec<Component>) -> (r: Self)
        ensures
            r@ == set_components(self@, components@),
    {
        let mut s = self;
        s.data.components = Some(components);
        s
    }

    /// Set this reply to clear the response's components. Only takes effect
    /// where this reply edits an existing response.
    ///
    /// Setting components afterwards undoes this.
    pub fn clear_components(self) -> (r: Self)
        ensures
            r@ == clear_components(self@),
    {
        let mut s = self;
        s.data.components = None;
        s.clear_flags.components = true;
        s
    }

    /// Set the message content of the reply.
    pub fn content(self, content: String) -> (r: Self)
        ensures
            r@ == set_content(self@, content@),
    {
        let mut s = self;
        s.data.content = Some(content);
        s
    }

    /// Set this reply to clear the response's message content. Only takes
    /// effect where this reply edits an existing response.
    ///
    /// Setting the content afterwards undoes this.
    pub fn clear_content(self) -> (r: Self)
        ensures
            r@ == clear_content(self@),
    {
        let mut s = self;
        s.data.content = None;
        s.clear_flags.content = true;
        s
    }

    /// Add an embed to the reply. Existing embeds are kept.
    pub fn embed(self, embed: Embed) -> (r: Self)
        ensures
            r@ == push_embed(self@, embed),
    {
        let mut s = self;
        match s.data.embeds {
            Some(mut embeds) => {
                embeds.push(embed);
                s.data.embeds = Some(embeds);
            },
            None => {
                let mut embeds = Vec::new();
                embeds.push(embed);
                s.data.embeds = Some(embeds);
            },
        }
        s
    }

    /// Set the embeds of the reply, replacing any that are present.
    pub fn embeds(self, embeds: Vec<Embed>) -> (r: Self)
        ensures
            r@ == set_embeds(self@, embeds@),
    {
        let mut s = self;
        s.data.embeds = Some(embeds);
        s
    }

    /// Set this reply to clear the response's embeds. Only takes effect
    /// where this reply edits an existing response.
    pub fn clear_embeds(self) -> (r: Self)
        ensures
            r@ == clear_embeds(self@),
    {
        let mut s = self;
        s.data.embeds = None;
        s.clear_flags.embeds = true;
        s
    }

    /// Set the message flags, replacing any that are present.
    pub fn flags(self, flags: MessageFlags) -> (r: Self)
        ensures
            r@ == set_flags(self@, Some(flags@)),
    {
        let mut s = self;
        s.data.flags = Some(flags);
        s
    }

    /// Add a combination of flags to the reply's flags.
    pub fn add_flags(self, flags: MessageFlags) -> (r: Self)
        ensures
            r@ == set_flags(self@, added_flags(self@.data.flags, flags@)),
    {
        let new_flags = match self.data.flags {
            Some(old_flags) => old_flags.union(flags),
            None => flags,
        };
        self.flags(new_flags)
    }

    /// Remove a combination of flags from the reply's flags.
    pub fn remove_flags(self, flags: MessageFlags) -> (r: Self)
        ensures
            r@ == set_flags(self@, removed_flags(self@.data.flags, flags@)),
    {
        let mut s = self;
        s.data.flags = match s.data.flags {
            Some(f) => Some(f.difference(flags)),
            None => None,
        };
        s
    }

    /// Set whether the reply is ephemeral.
    pub fn ephemeral(self, ephemeral: bool) -> (r: Self)
        ensures
            r@ == toggle_flag(self@, ephemeral_bit(), ephemeral),
    {
        if ephemeral {
            self.add_flags(MessageFlags::ephemeral())
        } else {
            self.remove_flags(MessageFlags::ephemeral())
        }
    }

    /// Set whether the response is text-to-speech.
    pub fn tts(self, value: bool) -> (r: Self)
        ensures
            r@ == set_tts(self@, value),
    {
        let mut s = self;
        s.data.tts = Some(value);
        s
    }

    /// Set the poll of the reply.
    pub fn poll(self, poll: Poll) -> (r: Self)
        ensures
            r@ == set_poll(self@, poll),
    {
        let mut s = self;
        s.data.poll = Some(poll);
        s
    }

    /// Set whether the reply suppresses its embeds.
    pub fn suppress_embeds(self, suppress_embeds: bool) -> (r: Self)
        ensures
            r@ == toggle_flag(self@, suppress_embeds_bit(), suppress_embeds),
    {
        if suppress_embeds {
            self.add_flags(MessageFlags::suppress_embeds())
        } else {
            self.remove_flags(MessageFlags::suppress_embeds())
        }
    }

    /// Set whether the reply is laid out with the second generation of
    /// components.
    pub fn components_v2(self, components_v2: bool) -> (r: Self)
        ensures
            r@ == toggle_flag(self@, components_v2_bit(), components_v2),
    {
        if components_v2 {
            self.add_flags(MessageFlags::is_components_v2())
        } else {
            self.remove_flags(MessageFlags::is_components_v2())
        }
    }
}

impl Default for CreateReply {
    fn default() -> (r: Self)
        ensures
            r@ == empty_reply(),
    {
        CreateReply::new()
    }
}

} // verus!

verus! {

/// Setting a part after marking it for clearing undoes the clearing: an
/// edit then replaces the part with the value that was set.
pub proof fn lemma_set_after_clear_replaces(
    v: ReplyView,
    c: Seq<char>,
    es: Seq<Embed>,
    e: Embed,
    cs: Seq<Component>,
    k: Component,
    m: AllowedMentions,
)
    ensures
        update_for(set_content(clear_content(v), c)).content == FieldEdit::Replace,
        set_content(clear_content(v), c).data.content == Some(c),
        update_for(set_embeds(clear_embeds(v), es)).embeds == FieldEdit::Replace,
        update_for(push_embed(clear_embeds(v), e)).embeds == FieldEdit::Replace,
        push_embed(clear_embeds(v), e).data.embeds == Some(seq![e]),
        update_for(set_components(clear_components(v), cs)).components == FieldEdit::Replace,
        update_for(push_component(clear_components(v), k)).components == FieldEdit::Replace,
        push_component(clear_components(v), k).data.components == Some(seq![k]),
        update_for(set_mentions(clear_mentions(v), m)).allowed_mentions == FieldEdit::Replace,
{
}

/// Marking a part for clearing after setting it drops the value: an edit
/// then removes the part.
pub proof fn lemma_clear_after_set_removes(
    v: ReplyView,
    c: Seq<char>,
    es: Seq<Embed>,
    cs: Seq<Component>,
    m: AllowedMentions,
)
    ensures
        update_for(clear_content(set_content(v, c))).content == FieldEdit::Remove,
        clear_content(set_content(v, c)).data.content is None,
        update_for(clear_embeds(set_embeds(v, es))).embeds == FieldEdit::Remove,
        clear_embeds(set_embeds(v, es)).data.embeds is None,
        update_for(clear_components(set_components(v, cs))).components == FieldEdit::Remove,
        clear_components(set_components(v, cs)).data.components is None,
        update_for(clear_mentions(set_mentions(v, m))).allowed_mentions == FieldEdit::Remove,
        clear_mentions(set_mentions(v, m)).data.allowed_mentions is None,
{
}

/// A new reply leaves every part of an edited response as it is.
pub proof fn lemma_new_reply_edits_nothing()
    ensures
        update_for(empty_reply()) == (ReplyUpdate {
            content: FieldEdit::Keep,
            embeds: FieldEdit::Keep,
            components: FieldEdit::Keep,
            allowed_mentions: FieldEdit::Keep,
            flags: false,
            attachments: false,
        }),
{
}

/// Turning a flag on sets its bit and keeps every other bit; turning it
/// off clears its bit and keeps every other bit, so turning it on and then
/// off leaves the other flags as they were.
pub proof fn lemma_toggle_flag(v: ReplyView, bit: u64, other: u64)
    requires
        other & bit == 0,
    ensures
        toggle_flag(v, bit, true).data.flags matches Some(f) && f & bit == bit,
        toggle_flag(v, bit, false).data.flags matches Some(f) ==> f & bit == 0,
        v.data.flags matches Some(f0) ==> (toggle_flag(v, bit, true).data.flags->0 & other == f0
            & other),
        v.data.flags matches Some(f0) ==> (toggle_flag(v, bit, false).data.flags->0 & other == f0
            & other),
        toggle_flag(toggle_flag(v, bit, true), bit, false).data.flags == Some(
            match v.data.flags {
                Some(f0) => f0 & !bit,
                None => 0u64,
            },
        ),
{
    match v.data.flags {
        Some(f0) => {
            assert((f0 | bit) & bit == bit) by (bit_vector);
            assert((f0 & !bit) & bit == 0) by (bit_vector);
            assert(other & bit == 0 ==> (f0 | bit) & other == f0 & other) by (bit_vector);
            assert(other & bit == 0 ==> (f0 & !bit) & other == f0 & other) by (bit_vector);
            assert((f0 | bit) & !bit == f0 & !bit) by (bit_vector);
        },
        None => {
            assert(bit & bit == bit) by (bit_vector);
            assert(bit & !bit == 0) by (bit_vector);
        },
    }
}

/// Editing with a reply replaces exactly the parts that it sets, and
/// applies its flags and attachments exactly when it holds them, whatever
/// its other parts are.
pub proof fn lemma_update_replaces_what_is_set(v: ReplyView)
    ensures
        update_for(v).flags <==> v.data.flags is Some,
        update_for(v).attachments <==> v.data.attachments is Some,
        update_for(v).content == FieldEdit::Replace <==> v.data.content is Some,
        update_for(v).embeds == FieldEdit::Replace <==> v.data.embeds is Some,
        update_for(v).components == FieldEdit::Replace <==> v.data.components is Some,
        update_for(v).allowed_mentions == FieldEdit::Replace <==> v.data.allowed_mentions is Some,
        update_for(v).content == FieldEdit::Remove <==> v.data.content is None && v.clear.content,
        update_for(v).embeds == FieldEdit::Remove <==> v.data.embeds is None && v.clear.embeds,
        update_for(v).components == FieldEdit::Remove <==> v.data.components is None
            && v.clear.components,
        update_for(v).allowed_mentions == FieldEdit::Remove <==> v.data.allowed_mentions is None
            && v.clear.mentions,
{
}

/// Adding an embed appends it to the embeds the reply holds (none, if it
/// holds none): the list grows by one, ends with the new embed, and keeps
/// every earlier embed in its place. Nothing else in the reply changes.
pub proof fn lemma_embed_appends(v: ReplyView, e: Embed)
    ensures
        ({
            let old = match v.data.embeds {
                Some(es) => es,
                None => Seq::<Embed>::empty(),
            };
            let r = push_embed(v, e);
            &&& r.data.embeds is Some
            &&& r.data.embeds->0.len() == old.len() + 1
            &&& r.data.embeds->0.last() == e
            &&& r.data.embeds->0.drop_last() == old
            &&& r.clear == v.clear
            &&& r.data.content == v.data.content
            &&& r.data.components == v.data.components
            &&& r.data.allowed_mentions == v.data.allowed_mentions
            &&& r.data.attachments == v.data.attachments
            &&& r.data.flags == v.data.flags
            &&& r.data.tts == v.data.tts
            &&& r.data.poll == v.data.poll
        }),
{
    match v.data.embeds {
        Some(es) => {
            assert(es.push(e).drop_last() =~= es);
        },
        None => {
            assert(seq![e].drop_last() =~= Seq::<Embed>::empty());
        },
    }
}

/// Adding a component appends it to the components the reply holds (none,
/// if it holds none): the list grows by one, ends with the new component,
/// and keeps every earlier component in its place. Nothing else changes.
pub proof fn lemma_component_appends(v: ReplyView, c: Component)
    ensures
        ({
            let old = match v.data.components {
                Some(cs) => cs,
                None => Seq::<Component>::empty(),
            };
            let r = push_component(v, c);
            &&& r.data.components is Some
            &&& r.data.components->0.len() == old.len() + 1
            &&& r.data.components->0.last() == c
            &&& r.data.components->0.drop_last() == old
            &&& r.clear == v.clear
            &&& r.data.content == v.data.content
            &&& r.data.embeds == v.data.embeds
            &&& r.data.allowed_mentions == v.data.allowed_mentions
            &&& r.data.attachments == v.data.attachments
            &&& r.data.flags == v.data.flags
            &&& r.data.tts == v.data.tts
            &&& r.data.poll == v.data.poll
        }),
{
    match v.data.components {
        Some(cs) => {
            assert(cs.push(c).drop_last() =~= cs);
        },
        None => {
            assert(seq![c].drop_last() =~= Seq::<Component>::empty());
        },
    }
}

} // verus!
