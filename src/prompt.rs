use vstd::prelude::*;
use crate::error::{ResponseField, WallpaperError};
use crate::json::{
    JsonMember, JsonValue, element_of, field_of, is_str, member_is, str_of,
};

verus! {

/// The instruction that precedes the keywords in the chat message.
pub open spec fn instruction_text() -> Seq<char> {
    "Create a short 100 word max prompt for generating a wallpaper using these keywords: "@
}

/// The keyword separator.
pub open spec fn separator() -> Seq<char> {
    ", "@
}

/// The keywords joined by the separator.
pub open spec fn joined(ks: Seq<Seq<char>>) -> Seq<char>
    decreases ks.len(),
{
    if ks.len() == 0 {
        Seq::empty()
    } else if ks.len() == 1 {
        ks[0]
    } else {
        joined(ks.drop_last()) + separator() + ks.last()
    }
}

/// The texts of a list of strings.
pub open spec fn texts(v: Seq<String>) -> Seq<Seq<char>> {
    v.map_values(|s: String| s@)
}

/// The chat message sent for these keywords.
pub open spec fn message_content(ks: Seq<Seq<char>>) -> Seq<char> {
    instruction_text() + joined(ks)
}

/// `needle` stands in `hay` at offset `off`.
pub open spec fn occurs_at(hay: Seq<char>, needle: Seq<char>, off: int) -> bool {
    0 <= off && off + needle.len() <= hay.len() && hay.subrange(off, off + needle.len()) == needle
}

/// `needle` stands somewhere in `hay`.
pub open spec fn contains_text(hay: Seq<char>, needle: Seq<char>) -> bool {
    exists|off: int| occurs_at(hay, needle, off)
}

/// Joins the keywords with `", "` between each two.
pub fn join_keywords(keywords: &Vec<String>) -> (r: String)
    ensures
        r@ == joined(texts(keywords@)),
{
    let mut out = String::new();
    let n = keywords.len();
    let mut i: usize = 0;
    while i < n
        invariant
            n == keywords@.len(),
            i <= n,
            out@ == joined(texts(keywords@.subrange(0, i as int))),
        decreases n - i,
    {
        proof {
            reveal_strlit(", ");
            let prev = keywords@.subrange(0, i as int);
            let next = keywords@.subrange(0, i + 1);
            assert(texts(next).drop_last() =~= texts(prev));
            assert(texts(next).last() == keywords@[i as int]@);
            assert(i == 0 ==> texts(next) =~= seq![keywords@[0]@]);
        }
        if i > 0 {
            out.append(", ");
        }
        out.append(keywords[i].as_str());
        i = i + 1;
    }
    assert(keywords@.subrange(0, n as int) =~= keywords@);
    out
}

/// The keywords of a run: those given on the command line, then the
/// configured defaults.
pub fn combined_keywords(given: &Vec<String>, defaults: &Vec<String>) -> (r: Vec<String>)
    ensures
        r@ == given@ + defaults@,
{
    let mut out: Vec<String> = Vec::new();
    let mut i: usize = 0;
    while i < given.len()
        invariant
            i <= given@.len(),
            out@ == given@.subrange(0, i as int),
        decreases given@.len() - i,
    {
        out.push(given[i].clone());
        i = i + 1;
    }
    let mut j: usize = 0;
    while j < defaults.len()
        invariant
            j <= defaults@.len(),
            i == given@.len(),
            out@ == given@ + defaults@.subrange(0, j as int),
        decreases defaults@.len() - j,
    {
        out.push(defaults[j].clone());
        j = j + 1;
    }
    assert(defaults@.subrange(0, j as int) =~= defaults@);
    out
}

/// The chat message for these keywords: a fixed instruction followed by the
/// joined keywords. An empty list still gives the instruction.
pub fn prompt_message(keywords: &Vec<String>) -> (r: String)
    ensures
        r@ == message_content(texts(keywords@)),
{
    let list = join_keywords(keywords);
    let head = "Create a short 100 word max prompt for generating a wallpaper using these keywords: ".to_string();
    head.concat(list.as_str())
}

/// `r` is the chat-completion request `{"model": model, "messages":
/// [{"role": "user", "content": content}]}`.
pub open spec fn is_chat_request(r: JsonValue, model: Seq<char>, content: Seq<char>) -> bool {
    match r {
        JsonValue::Object(top) => top@.len() == 2 && member_is(
            top@[0],
            "model"@,
            |v: JsonValue| is_str(v, model),
        ) && top@[1].key@ == "messages"@ && match top@[1].value {
            JsonValue::Array(msgs) => msgs@.len() == 1 && match msgs@[0] {
                JsonValue::Object(m) => m@.len() == 2 && member_is(
                    m@[0],
                    "role"@,
                    |v: JsonValue| is_str(v, "user"@),
                ) && member_is(m@[1], "content"@, |v: JsonValue| is_str(v, content)),
                _ => false,
            },
            _ => false,
        },
        _ => false,
    }
}

/// The chat-completion request asking `model` for a wallpaper prompt built
/// from `keywords`.
pub fn prompt_request_body(model: &String, keywords: &Vec<String>) -> (r: JsonValue)
    ensures
        is_chat_request(r, model@, message_content(texts(keywords@))),
{
    let content = prompt_message(keywords);
    let message = JsonValue::Object(
        vec![
            JsonMember { key: "role".to_string(), value: JsonValue::Str("user".to_string()) },
            JsonMember { key: "content".to_string(), value: JsonValue::Str(content) },
        ],
    );
    JsonValue::Object(
        vec![
            JsonMember { key: "model".to_string(), value: JsonValue::Str(model.clone()) },
            JsonMember { key: "messages".to_string(), value: JsonValue::Array(vec![message]) },
        ],
    )
}

/// `choices[0].message.content` of a chat-completion response, when it is a
/// string.
pub open spec fn chat_content_of(resp: JsonValue) -> Option<Seq<char>> {
    match field_of(resp, "choices"@) {
        Some(choices) => match element_of(choices, 0) {
            Some(choice) => match field_of(choice, "message"@) {
                Some(message) => match field_of(message, "content"@) {
                    Some(content) => str_of(content),
                    None => None,
                },
                None => None,
            },
            None => None,
        },
        None => None,
    }
}

/// The generated prompt of a chat-completion response: the text at
/// `choices[0].message.content`.
pub fn chat_reply_content(resp: &JsonValue) -> (r: Result<String, WallpaperError>)
    ensures
        chat_content_of(*resp) matches Some(c) ==> (r matches Ok(s) && s@ == c),
        chat_content_of(*resp) is None ==> r == Err::<String, WallpaperError>(
            WallpaperError::MalformedResponse(ResponseField::ChatContent),
        ),
{
    let malformed = Err(WallpaperError::MalformedResponse(ResponseField::ChatContent));
    let choices = match resp.get(&"choices".to_string()) {
        Some(v) => v,
        None => return malformed,
    };
    let choice = match choices.at(0) {
        Some(v) => v,
        None => return malformed,
    };
    let message = match choice.get(&"message".to_string()) {
        Some(v) => v,
        None => return malformed,
    };
    let content = match message.get(&"content".to_string()) {
        Some(v) => v,
        None => return malformed,
    };
    match content.as_str() {
        Some(s) => Ok(s.clone()),
        None => malformed,
    }
}


/// Every keyword stands somewhere in the joined list.
proof fn lemma_joined_embeds(ks: Seq<Seq<char>>)
    ensures
        forall|i: int| 0 <= i < ks.len() ==> contains_text(joined(ks), #[trigger] ks[i]),
    decreases ks.len(),
{
    if ks.len() == 1 {
        assert(occurs_at(joined(ks), ks[0], 0)) by {
            assert(joined(ks).subrange(0, ks[0].len() as int) =~= ks[0]);
        }
    } else if ks.len() > 1 {
        let front = ks.drop_last();
        lemma_joined_embeds(front);
        let j = joined(ks);
        let jf = joined(front);
        reveal_strlit(", ");
        assert(j == jf + separator() + ks.last());
        assert forall|i: int| 0 <= i < ks.len() implies contains_text(j, #[trigger] ks[i]) by {
            if i < ks.len() - 1 {
                assert(front[i] == ks[i]);
                let off = choose|off: int| occurs_at(jf, front[i], off);
                assert(j.subrange(off, off + ks[i].len()) =~= jf.subrange(off, off + ks[i].len()));
                assert(occurs_at(j, ks[i], off));
            } else {
                let off: int = jf.len() as int + 2;
                assert(j.subrange(off, off + ks[i].len()) =~= ks.last());
                assert(occurs_at(j, ks[i], off));
            }
        }
    }
}

/// For every keyword list, empty included, the chat message is not empty and
/// contains each keyword.
pub proof fn lemma_message_embeds_keywords(ks: Seq<Seq<char>>)
    ensures
        message_content(ks).len() > 0,
        forall|i: int|
            0 <= i < ks.len() ==> contains_text(message_content(ks), #[trigger] ks[i]),
{
    reveal_strlit(
        "Create a short 100 word max prompt for generating a wallpaper using these keywords: ",
    );
    lemma_joined_embeds(ks);
    let m = message_content(ks);
    let h = instruction_text();
    assert forall|i: int| 0 <= i < ks.len() implies contains_text(m, #[trigger] ks[i]) by {
        let off = choose|off: int| occurs_at(joined(ks), ks[i], off);
        assert(m.subrange(h.len() + off, h.len() + off + ks[i].len()) =~= joined(ks).subrange(
            off,
            off + ks[i].len(),
        ));
        assert(occurs_at(m, ks[i], h.len() + off));
    }
}

} // verus!
