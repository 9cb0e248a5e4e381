//! The content of a conversation in native blocks.
use crate::claude_code::encoder::{EncodeError, EncodeErrorModel};
use crate::claude_code::types::{
    ContentBlock, ContentBlockModel, ImageSource, ImageSourceModel, Role, ToolResultBlock, ToolResultBlockModel,
    ToolResultContent, ToolResultContentModel,
};
use crate::model::{no_items, outcome, push_item, Duplicate};
use crate::protocol::{
    AgentMessageInputContent, AgentMessageInputContentModel, ContentItem, ContentItemModel,
    FunctionCallOutputBody, FunctionCallOutputBodyModel, FunctionCallOutputContentItem,
    FunctionCallOutputContentItemModel,
};
use crate::text::{
    begins_with, concat3, join_lines, joined, split_first, split_once, starts_with, strip_prefix, strip_suffix,
    stripped, without_suffix,
};
use vstd::prelude::*;
use vstd::string::*;

verus! {

/// Why base64's standard engine refuses a text, or nothing where it decodes it.
pub uninterp spec fn base64_refusal(data: Seq<char>) -> Option<Seq<char>>;

/// `base64::engine::general_purpose::STANDARD.decode`: the message of the error
/// for a text that is no padded standard base64, a function of the text alone.
#[verifier::external_body]
fn check_base64(data: &str) -> (refusal: Option<String>)
    ensures
        refusal.deep_view() == base64_refusal(data@),
{
    base64::Engine::decode(&base64::engine::general_purpose::STANDARD, data).err().map(|error| error.to_string())
}

/// The media type and the data of an address that holds an image in base64, or
/// why it holds none.
pub open spec fn image_parts(url: Seq<char>) -> Result<(Seq<char>, Seq<char>), Seq<char>> {
    match stripped(url, "data:"@) {
        None => Err("expected a data URL"@),
        Some(rest) => match split_first(rest, ',') {
            None => Err("expected a data URL"@),
            Some((metadata, data)) => match without_suffix(metadata, ";base64"@) {
                None => Err("expected an image/* base64 data URL"@),
                Some(media_type) => if begins_with(media_type, "image/"@) {
                    Ok((media_type, data))
                } else {
                    Err("expected an image/* base64 data URL"@)
                },
            },
        },
    }
}

/// The media type and the data of an address that holds an image in base64.
pub fn split_image(url: &str) -> (parts: Result<(String, String), &'static str>)
    ensures
        outcome(parts) == image_parts(url@),
{
    let rest = match strip_prefix(url, "data:") {
        None => {
            return Err("expected a data URL");
        },
        Some(rest) => rest,
    };
    let parts = match split_once(&rest, ',') {
        None => {
            return Err("expected a data URL");
        },
        Some(parts) => parts,
    };
    match strip_suffix(&parts.0, ";base64") {
        None => Err("expected an image/* base64 data URL"),
        Some(media_type) => {
            if starts_with(&media_type, "image/") {
                Ok((media_type, parts.1))
            } else {
                Err("expected an image/* base64 data URL")
            }
        },
    }
}

/// The image that an address holds.
pub open spec fn image_of(url: Seq<char>, item_index: usize, block_index: usize) -> Result<
    ImageSourceModel,
    EncodeErrorModel,
> {
    match image_parts(url) {
        Err(message) => Err(EncodeErrorModel::InvalidImage { item_index, block_index, message }),
        Ok((media_type, data)) => match base64_refusal(data) {
            Some(message) => Err(EncodeErrorModel::InvalidImage { item_index, block_index, message }),
            None => Ok(ImageSourceModel::Base64 { media_type, data }),
        },
    }
}

fn image_source(url: &str, item_index: usize, block_index: usize) -> (image: Result<ImageSource, EncodeError>)
    ensures
        outcome(image) == image_of(url@, item_index, block_index),
{
    match split_image(url) {
        Err(message) => Err(EncodeError::InvalidImage { item_index, block_index, message: message.to_owned() }),
        Ok(parts) => match check_base64(&parts.1) {
            Some(message) => Err(EncodeError::InvalidImage { item_index, block_index, message }),
            None => Ok(ImageSource::Base64 { media_type: parts.0, data: parts.1 }),
        },
    }
}

/// The block for a part of a message.
pub open spec fn message_block(role: Role, item: ContentItemModel, item_index: usize, block_index: usize) -> Result<
    ContentBlockModel,
    EncodeErrorModel,
> {
    match (role, item) {
        (Role::User, ContentItemModel::InputText { text }) => Ok(
            ContentBlockModel::Text { text, cache_control: None },
        ),
        (Role::Assistant, ContentItemModel::OutputText { text }) => Ok(
            ContentBlockModel::Text { text, cache_control: None },
        ),
        (Role::User, ContentItemModel::InputImage { image_url, .. }) => match image_of(
            image_url,
            item_index,
            block_index,
        ) {
            Ok(source) => Ok(ContentBlockModel::Image { source, cache_control: None }),
            Err(error) => Err(error),
        },
        (_, ContentItemModel::InputAudio { .. }) => Err(
            EncodeErrorModel::UnsupportedContent { item_index, block_index, kind: "audio"@ },
        ),
        _ => Err(
            EncodeErrorModel::UnsupportedContent { item_index, block_index, kind: "content role/type combination"@ },
        ),
    }
}

/// The blocks for the parts of a message from `at` on behind those that are
/// done.
pub open spec fn message_blocks_from(
    role: Role,
    content: Seq<ContentItemModel>,
    item_index: usize,
    at: int,
    done: Seq<ContentBlockModel>,
) -> Result<Seq<ContentBlockModel>, EncodeErrorModel>
    decreases content.len() - at,
{
    if at < 0 || at >= content.len() {
        Ok(done)
    } else {
        match message_block(role, content[at], item_index, at as usize) {
            Ok(block) => message_blocks_from(role, content, item_index, at + 1, done.push(block)),
            Err(error) => Err(error),
        }
    }
}

fn encode_block(role: Role, item: &ContentItem, item_index: usize, block_index: usize) -> (block: Result<
    ContentBlock,
    EncodeError,
>)
    ensures
        outcome(block) == message_block(role, item.deep_view(), item_index, block_index),
{
    match (role, item) {
        (Role::User, ContentItem::InputText { text }) => Ok(
            ContentBlock::Text { text: text.duplicate(), cache_control: None },
        ),
        (Role::Assistant, ContentItem::OutputText { text }) => Ok(
            ContentBlock::Text { text: text.duplicate(), cache_control: None },
        ),
        (Role::User, ContentItem::InputImage { image_url, .. }) => match image_source(
            image_url,
            item_index,
            block_index,
        ) {
            Ok(source) => Ok(ContentBlock::Image { source, cache_control: None }),
            Err(error) => Err(error),
        },
        (_, ContentItem::InputAudio { .. }) => Err(
            EncodeError::UnsupportedContent { item_index, block_index, kind: "audio" },
        ),
        _ => Err(EncodeError::UnsupportedContent { item_index, block_index, kind: "content role/type combination" }),
    }
}

/// The blocks for the parts of a message.
pub fn encode_message_content(content: &Vec<ContentItem>, item_index: usize, role: Role) -> (blocks: Result<
    Vec<ContentBlock>,
    EncodeError,
>)
    ensures
        outcome(blocks) == message_blocks_from(role, content.deep_view(), item_index, 0, Seq::empty()),
{
    let mut done: Vec<ContentBlock> = no_items();
    let mut i: usize = 0;
    while i < content.len()
        invariant
            i <= content.len(),
            message_blocks_from(role, content.deep_view(), item_index, 0, Seq::empty()) == message_blocks_from(
                role,
                content.deep_view(),
                item_index,
                i as int,
                done.deep_view(),
            ),
        decreases content.len() - i,
    {
        assert(content.deep_view()[i as int] == content@[i as int].deep_view());
        match encode_block(role, &content[i], item_index, i) {
            Ok(block) => {
                push_item(&mut done, block);
            },
            Err(error) => {
                return Err(error);
            },
        }
        i += 1;
    }
    Ok(done)
}

/// The block for a part of a tool result.
pub open spec fn result_block(item: FunctionCallOutputContentItemModel, item_index: usize, block_index: usize) -> Result<
    ToolResultBlockModel,
    EncodeErrorModel,
> {
    match item {
        FunctionCallOutputContentItemModel::InputText { text } => Ok(ToolResultBlockModel::Text { text }),
        FunctionCallOutputContentItemModel::InputImage { image_url, .. } => match image_of(
            image_url,
            item_index,
            block_index,
        ) {
            Ok(source) => Ok(ToolResultBlockModel::Image { source }),
            Err(error) => Err(error),
        },
        FunctionCallOutputContentItemModel::InputAudio { .. } => Err(
            EncodeErrorModel::UnsupportedContent { item_index, block_index, kind: "audio tool result"@ },
        ),
        FunctionCallOutputContentItemModel::EncryptedContent { .. } => Err(
            EncodeErrorModel::UnsupportedContent { item_index, block_index, kind: "encrypted tool result"@ },
        ),
    }
}

/// The blocks for the parts of a tool result from `at` on behind those that
/// are done.
pub open spec fn result_blocks_from(
    items: Seq<FunctionCallOutputContentItemModel>,
    item_index: usize,
    at: int,
    done: Seq<ToolResultBlockModel>,
) -> Result<Seq<ToolResultBlockModel>, EncodeErrorModel>
    decreases items.len() - at,
{
    if at < 0 || at >= items.len() {
        Ok(done)
    } else {
        match result_block(items[at], item_index, at as usize) {
            Ok(block) => result_blocks_from(items, item_index, at + 1, done.push(block)),
            Err(error) => Err(error),
        }
    }
}

/// The content of a tool result.
pub open spec fn result_of(body: FunctionCallOutputBodyModel, item_index: usize) -> Result<
    ToolResultContentModel,
    EncodeErrorModel,
> {
    match body {
        FunctionCallOutputBodyModel::Text(text) => Ok(ToolResultContentModel::Text(text)),
        FunctionCallOutputBodyModel::ContentItems(items) => match result_blocks_from(
            items,
            item_index,
            0,
            Seq::empty(),
        ) {
            Ok(blocks) => Ok(ToolResultContentModel::Blocks(blocks)),
            Err(error) => Err(error),
        },
    }
}

fn encode_result_block(item: &FunctionCallOutputContentItem, item_index: usize, block_index: usize) -> (block: Result<
    ToolResultBlock,
    EncodeError,
>)
    ensures
        outcome(block) == result_block(item.deep_view(), item_index, block_index),
{
    match item {
        FunctionCallOutputContentItem::InputText { text } => Ok(ToolResultBlock::Text { text: text.duplicate() }),
        FunctionCallOutputContentItem::InputImage { image_url, .. } => match image_source(
            image_url,
            item_index,
            block_index,
        ) {
            Ok(source) => Ok(ToolResultBlock::Image { source }),
            Err(error) => Err(error),
        },
        FunctionCallOutputContentItem::InputAudio { .. } => Err(
            EncodeError::UnsupportedContent { item_index, block_index, kind: "audio tool result" },
        ),
        FunctionCallOutputContentItem::EncryptedContent { .. } => Err(
            EncodeError::UnsupportedContent { item_index, block_index, kind: "encrypted tool result" },
        ),
    }
}

/// The content of a tool result.
pub fn encode_tool_output(body: &FunctionCallOutputBody, item_index: usize) -> (content: Result<
    ToolResultContent,
    EncodeError,
>)
    ensures
        outcome(content) == result_of(body.deep_view(), item_index),
{
    match body {
        FunctionCallOutputBody::Text(text) => Ok(ToolResultContent::Text(text.duplicate())),
        FunctionCallOutputBody::ContentItems(items) => {
            let mut done: Vec<ToolResultBlock> = no_items();
            let mut i: usize = 0;
            while i < items.len()
                invariant
                    i <= items.len(),
                    body.deep_view() == FunctionCallOutputBodyModel::ContentItems(items.deep_view()),
                    result_blocks_from(items.deep_view(), item_index, 0, Seq::empty()) == result_blocks_from(
                        items.deep_view(),
                        item_index,
                        i as int,
                        done.deep_view(),
                    ),
                decreases items.len() - i,
            {
                assert(items.deep_view()[i as int] == items@[i as int].deep_view());
                match encode_result_block(&items[i], item_index, i) {
                    Ok(block) => {
                        push_item(&mut done, block);
                    },
                    Err(error) => {
                        return Err(error);
                    },
                }
                i += 1;
            }
            Ok(ToolResultContent::Blocks(done))
        },
    }
}

/// The texts of a message between agents from `at` on behind those that are
/// done, where all of it is plain.
pub open spec fn plain_texts_from(
    content: Seq<AgentMessageInputContentModel>,
    at: int,
    done: Seq<Seq<char>>,
) -> Option<Seq<Seq<char>>>
    decreases content.len() - at,
{
    if at < 0 || at >= content.len() {
        Some(done)
    } else {
        match content[at] {
            AgentMessageInputContentModel::InputText { text } => plain_texts_from(content, at + 1, done.push(text)),
            AgentMessageInputContentModel::EncryptedContent { .. } => None,
        }
    }
}

/// A message between agents as the user's text: who wrote to whom, and the
/// lines of the message; nothing where part of it is not plain.
pub open spec fn agent_text(
    author: Seq<char>,
    recipient: Seq<char>,
    content: Seq<AgentMessageInputContentModel>,
) -> Option<Seq<char>> {
    match plain_texts_from(content, 0, Seq::empty()) {
        None => None,
        Some(lines) => Some("Agent message from "@ + author + " to "@ + recipient + ":\n"@ + joined(lines)),
    }
}

/// A message between agents as the user's text.
pub fn agent_message_text(author: &str, recipient: &str, content: &Vec<AgentMessageInputContent>) -> (text: Option<
    String,
>)
    ensures
        text.deep_view() == agent_text(author@, recipient@, content.deep_view()),
{
    let mut lines: Vec<String> = no_items();
    let mut i: usize = 0;
    while i < content.len()
        invariant
            i <= content.len(),
            plain_texts_from(content.deep_view(), 0, Seq::empty()) == plain_texts_from(
                content.deep_view(),
                i as int,
                lines.deep_view(),
            ),
        decreases content.len() - i,
    {
        assert(content.deep_view()[i as int] == content@[i as int].deep_view());
        match &content[i] {
            AgentMessageInputContent::InputText { text } => {
                push_item(&mut lines, text.duplicate());
            },
            AgentMessageInputContent::EncryptedContent { .. } => {
                return None;
            },
        }
        i += 1;
    }
    let mut text = concat3("Agent message from ", author, " to ");
    text.append(recipient);
    text.append(":\n");
    text.append(&join_lines(&lines));
    Some(text)
}

} // verus!
