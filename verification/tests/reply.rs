use aurora::reply::ResponseData;
use aurora::{CreateReply, FieldEdit, MessageFlags, ReplyUpdate};
use twilight_model::channel::message::{AllowedMentions, Component, Embed};
use twilight_model::http::attachment::Attachment;

fn embed(title: &str) -> Embed {
    Embed {
        author: None,
        color: None,
        description: None,
        fields: Vec::new(),
        footer: None,
        image: None,
        kind: "rich".to_string(),
        provider: None,
        thumbnail: None,
        timestamp: None,
        title: Some(title.to_string()),
        url: None,
        video: None,
    }
}

fn empty_data() -> ResponseData {
    ResponseData {
        allowed_mentions: None,
        attachments: None,
        components: None,
        content: None,
        embeds: None,
        flags: None,
        tts: None,
        poll: None,
    }
}

fn keep_all() -> ReplyUpdate {
    ReplyUpdate {
        content: FieldEdit::Keep,
        embeds: FieldEdit::Keep,
        components: FieldEdit::Keep,
        allowed_mentions: FieldEdit::Keep,
        flags: false,
        attachments: false,
    }
}

#[test]
fn new_reply_is_empty_and_edits_nothing() {
    assert_eq!(CreateReply::new().update_plan(), keep_all());
    assert_eq!(CreateReply::new().build(), empty_data());
    assert_eq!(CreateReply::default().build(), empty_data());
}

#[test]
fn content_is_set_and_replaces_on_edit() {
    let r = CreateReply::new().content("hello".to_string());
    assert_eq!(r.update_plan(), ReplyUpdate { content: FieldEdit::Replace, ..keep_all() });
    assert_eq!(r.build().content, Some("hello".to_string()));
}

#[test]
fn clearing_content_removes_it_on_edit() {
    let r = CreateReply::new().content("x".to_string()).clear_content();
    assert_eq!(r.update_plan().content, FieldEdit::Remove);
    assert_eq!(r.build().content, None);
}

#[test]
fn setting_after_clearing_undoes_the_clearing() {
    let r = CreateReply::new()
        .clear_content()
        .content("again".to_string())
        .clear_embeds()
        .embed(embed("e"))
        .clear_components()
        .component(Component::Unknown(9))
        .clear_allowed_mentions()
        .allowed_mentions(AllowedMentions::default());
    let plan = r.update_plan();
    assert_eq!(plan.content, FieldEdit::Replace);
    assert_eq!(plan.embeds, FieldEdit::Replace);
    assert_eq!(plan.components, FieldEdit::Replace);
    assert_eq!(plan.allowed_mentions, FieldEdit::Replace);
    let data = r.build();
    assert_eq!(data.embeds, Some(vec![embed("e")]));
    assert_eq!(data.components, Some(vec![Component::Unknown(9)]));
}

#[test]
fn clearing_each_part_marks_it_for_removal() {
    let plan = CreateReply::new()
        .clear_embeds()
        .clear_components()
        .clear_allowed_mentions()
        .update_plan();
    assert_eq!(
        plan,
        ReplyUpdate {
            embeds: FieldEdit::Remove,
            components: FieldEdit::Remove,
            allowed_mentions: FieldEdit::Remove,
            ..keep_all()
        }
    );
}

#[test]
fn embed_keeps_existing_embeds() {
    let data = CreateReply::new().embed(embed("a")).embed(embed("b")).build();
    assert_eq!(data.embeds, Some(vec![embed("a"), embed("b")]));
}

#[test]
fn embeds_replace_existing_embeds() {
    let data = CreateReply::new().embed(embed("a")).embeds(vec![embed("c")]).build();
    assert_eq!(data.embeds, Some(vec![embed("c")]));
}

#[test]
fn component_keeps_existing_components() {
    let data = CreateReply::new()
        .components(vec![Component::Unknown(1)])
        .component(Component::Unknown(2))
        .build();
    assert_eq!(data.components, Some(vec![Component::Unknown(1), Component::Unknown(2)]));
}

#[test]
fn attachments_tts_and_mentions_are_set() {
    let a = Attachment::from_bytes("f.txt".to_string(), vec![1, 2], 7);
    let r = CreateReply::new()
        .attachments(vec![a.clone()])
        .tts(true)
        .allowed_mentions(AllowedMentions::default());
    assert_eq!(r.update_plan(), ReplyUpdate {
        attachments: true,
        allowed_mentions: FieldEdit::Replace,
        ..keep_all()
    });
    let data = r.build();
    assert_eq!(data.attachments, Some(vec![a]));
    assert_eq!(data.tts, Some(true));
    assert_eq!(data.allowed_mentions, Some(AllowedMentions::default()));
}

#[test]
fn ephemeral_sets_and_clears_its_bit() {
    let on = CreateReply::new().ephemeral(true);
    assert!(on.update_plan().flags);
    let flags = on.build().flags.map(|f| f.bits());
    assert_eq!(flags, Some(0x40));
    let off = CreateReply::new().suppress_embeds(true).ephemeral(true).ephemeral(false);
    assert_eq!(off.build().flags.map(|f| f.bits()), Some(0x4));
}

#[test]
fn removing_flags_from_no_flags_keeps_none() {
    let r = CreateReply::new().ephemeral(false).suppress_embeds(false).components_v2(false);
    assert_eq!(r.build().flags, None);
}

#[test]
fn add_flags_combines_with_existing_flags() {
    let r = CreateReply::new()
        .flags(MessageFlags::from_bits_retain(0x1000))
        .add_flags(MessageFlags::suppress_embeds())
        .components_v2(true);
    assert_eq!(r.build().flags.map(|f| f.bits()), Some(0x1000 | 0x4 | 0x8000));
}

#[test]
fn flags_replace_existing_flags() {
    let r = CreateReply::new().ephemeral(true).flags(MessageFlags::suppress_embeds());
    assert_eq!(r.build().flags.map(|f| f.bits()), Some(0x4));
}

#[test]
fn remove_flags_keeps_other_bits() {
    let r = CreateReply::new()
        .flags(MessageFlags::from_bits_retain(0x40 | 0x4 | 0x8000))
        .remove_flags(MessageFlags::from_bits_retain(0x40 | 0x8000));
    assert_eq!(r.build().flags.map(|f| f.bits()), Some(0x4));
}
