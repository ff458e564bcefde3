use vstd::prelude::*;
use vstd::string::{StrSliceExecFns, StringExecFns};
use crate::status::{status_line, status_text};
use crate::text::{contains_any_folded, occurs_any, same_text, trim_slashes, trim_trailing_slashes};

verus! {

/// Name fragments of models that do not chat: speech, audio, embeddings,
/// moderation and images.
pub open spec fn non_chat_tokens() -> Seq<&'static str> {
    seq![
        "whisper",
        "transcribe",
        "transcription",
        "audio",
        "speech",
        "tts",
        "embedding",
        "moderation",
        "image",
        "vision",
        "realtime",
        "dall-e",
    ]
}

/// A model is a chat model unless its ASCII-lowercased name holds one of the
/// non-chat fragments.
pub open spec fn chat_model(id: Seq<char>) -> bool {
    !occurs_any(id, non_chat_tokens())
}

pub fn is_chat_model(model_id: &str) -> (r: bool)
    ensures
        r == chat_model(model_id@),
{
    let excluded = vec![
        "whisper",
        "transcribe",
        "transcription",
        "audio",
        "speech",
        "tts",
        "embedding",
        "moderation",
        "image",
        "vision",
        "realtime",
        "dall-e",
    ];
    assert(excluded@ == non_chat_tokens());
    !contains_any_folded(model_id, &excluded)
}

/// The model list endpoint of a provider base URL.
pub open spec fn models_url_of(base: Seq<char>) -> Seq<char> {
    trim_slashes(base) + "/models"@
}

pub fn models_url(base_url: &str) -> (r: String)
    ensures
        r@ == models_url_of(base_url@),
{
    String::from_str(trim_trailing_slashes(base_url)).concat("/models")
}

/// The error for a model list response that is not a success.
pub fn models_api_error(status: u16, body: &str) -> (r: String)
    requires
        100 <= status <= 999,
    ensures
        r@ == "Models API error "@ + status_line(status) + ": "@ + body@,
{
    String::from_str("Models API error ").concat(status_text(status).as_str()).concat(": ").concat(body)
}

/// Lexicographic order of texts by character code, which is the order of
/// their UTF-8 bytes.
pub open spec fn text_lt(a: Seq<char>, b: Seq<char>) -> bool
    decreases a.len(),
{
    if a.len() == 0 {
        b.len() > 0
    } else if b.len() == 0 {
        false
    } else if a[0] != b[0] {
        (a[0] as u32) < (b[0] as u32)
    } else {
        text_lt(a.drop_first(), b.drop_first())
    }
}

proof fn lemma_lt_irreflexive(a: Seq<char>)
    ensures
        !text_lt(a, a),
    decreases a.len(),
{
    if a.len() > 0 {
        lemma_lt_irreflexive(a.drop_first());
    }
}

proof fn lemma_lt_transitive(a: Seq<char>, b: Seq<char>, c: Seq<char>)
    requires
        text_lt(a, b),
        text_lt(b, c),
    ensures
        text_lt(a, c),
    decreases a.len(),
{
    if a.len() > 0 && b.len() > 0 && c.len() > 0 && a[0] == b[0] && b[0] == c[0] {
        lemma_lt_transitive(a.drop_first(), b.drop_first(), c.drop_first());
    }
}

proof fn lemma_lt_total(a: Seq<char>, b: Seq<char>)
    requires
        a != b,
    ensures
        text_lt(a, b) || text_lt(b, a),
    decreases a.len(),
{
    if a.len() > 0 && b.len() > 0 && a[0] == b[0] {
        if a.drop_first() == b.drop_first() {
            assert(a =~= seq![a[0]] + a.drop_first());
            assert(b =~= seq![b[0]] + b.drop_first());
        }
        lemma_lt_total(a.drop_first(), b.drop_first());
    } else if a.len() == 0 && b.len() == 0 {
        assert(a =~= b);
    } else if a.len() > 0 && b.len() > 0 {
        vstd::utf8::char_u32_cast(a[0], a[0] as u32);
        vstd::utf8::char_u32_cast(b[0], b[0] as u32);
    }
}

/// Whether `a` comes strictly before `b`.
pub fn text_less(a: &str, b: &str) -> (r: bool)
    ensures
        r == text_lt(a@, b@),
{
    let al = a.unicode_len();
    let bl = b.unicode_len();
    let mut i: usize = 0;
    proof {
        assert(a@.skip(0) =~= a@);
        assert(b@.skip(0) =~= b@);
    }
    loop
        invariant
            al == a@.len(),
            bl == b@.len(),
            i <= al,
            i <= bl,
            text_lt(a@, b@) == text_lt(a@.skip(i as int), b@.skip(i as int)),
        decreases al - i,
    {
        if i == al {
            return i < bl;
        }
        if i == bl {
            return false;
        }
        let x = a.get_char(i);
        let y = b.get_char(i);
        if x != y {
            return (x as u32) < (y as u32);
        }
        proof {
            assert(a@.skip(i as int).drop_first() =~= a@.skip(i + 1));
            assert(b@.skip(i as int).drop_first() =~= b@.skip(i + 1));
        }
        i = i + 1;
    }
}

/// Each text comes strictly before the next: sorted, without duplicates.
pub open spec fn strictly_sorted(v: Seq<String>) -> bool {
    forall|i: int, j: int| 0 <= i < j < v.len() ==> text_lt(#[trigger] v[i]@, #[trigger] v[j]@)
}

/// The texts that a list holds.
pub open spec fn listed(v: Seq<String>) -> Set<Seq<char>> {
    Set::new(|s: Seq<char>| exists|i: int| 0 <= i < v.len() && #[trigger] v[i]@ == s)
}

/// The chat models among the given names.
pub open spec fn chat_models_in(ids: Seq<String>) -> Set<Seq<char>> {
    Set::new(|s: Seq<char>| exists|i: int| 0 <= i < ids.len() && #[trigger] ids[i]@ == s && chat_model(s))
}

/// The chat models among `ids`, sorted and without duplicates. No chat
/// model at all is an error.
pub fn select_chat_models(ids: &Vec<String>) -> (r: Result<Vec<String>, String>)
    ensures
        r is Err <==> chat_models_in(ids@) == Set::<Seq<char>>::empty(),
        r matches Err(e) ==> e@ == "No chat-capable models returned by provider"@,
        r matches Ok(v) ==> strictly_sorted(v@) && listed(v@) == chat_models_in(ids@),
{
    let mut out: Vec<String> = Vec::new();
    let mut k: usize = 0;
    proof {
        assert(listed(out@) =~= chat_models_in(ids@.subrange(0, 0)));
    }
    while k < ids.len()
        invariant
            k <= ids@.len(),
            strictly_sorted(out@),
            listed(out@) == chat_models_in(ids@.subrange(0, k as int)),
        decreases ids@.len() - k,
    {
        let id = &ids[k];
        let ghost before = ids@.subrange(0, k as int);
        let ghost after = ids@.subrange(0, k + 1);
        if is_chat_model(id.as_str()) {
            let mut p: usize = 0;
            while p < out.len() && text_less(out[p].as_str(), id.as_str())
                invariant
                    p <= out@.len(),
                    forall|i: int| 0 <= i < p ==> text_lt(#[trigger] out@[i]@, id@),
                decreases out@.len() - p,
            {
                p = p + 1;
            }
            if p < out.len() && same_text(out[p].as_str(), id.as_str()) {
                proof {
                    assert(listed(out@) =~= chat_models_in(after)) by {
                        assert forall|s: Seq<char>| #[trigger] chat_models_in(after).contains(s) implies listed(
                            out@,
                        ).contains(s) by {
                            let i = choose|i: int| 0 <= i < after.len() && #[trigger] after[i]@ == s && chat_model(s);
                            if i < k {
                                assert(before[i] == after[i]);
                                assert(chat_models_in(before).contains(s));
                            } else {
                                assert(out@[p as int]@ == s);
                            }
                        }
                        assert forall|s: Seq<char>| #[trigger] listed(out@).contains(s) implies chat_models_in(
                            after,
                        ).contains(s) by {
                            assert(chat_models_in(before).contains(s));
                            let i = choose|i: int| 0 <= i < before.len() && #[trigger] before[i]@ == s && chat_model(s);
                            assert(after[i] == before[i]);
                        }
                    }
                }
            } else {
                let ghost old_out = out@;
                proof {
                    if p < out@.len() {
                        lemma_lt_total(out@[p as int]@, id@);
                    }
                }
                out.insert(p, id.clone());
                proof {
                    assert forall|i: int, j: int| 0 <= i < j < out@.len() implies text_lt(
                        #[trigger] out@[i]@,
                        #[trigger] out@[j]@,
                    ) by {
                        if j < p {
                            assert(out@[i] == old_out[i] && out@[j] == old_out[j]);
                        } else if j == p {
                            assert(out@[i] == old_out[i]);
                        } else if i == p {
                            assert(out@[j] == old_out[j - 1]);
                            if j - 1 > p {
                                lemma_lt_transitive(id@, old_out[p as int]@, old_out[j - 1]@);
                            }
                        } else if i < p {
                            assert(out@[i] == old_out[i] && out@[j] == old_out[j - 1]);
                        } else {
                            assert(out@[i] == old_out[i - 1] && out@[j] == old_out[j - 1]);
                        }
                    }
                    assert(listed(out@) =~= chat_models_in(after)) by {
                        assert forall|s: Seq<char>| #[trigger] chat_models_in(after).contains(s) implies listed(
                            out@,
                        ).contains(s) by {
                            let i = choose|i: int| 0 <= i < after.len() && #[trigger] after[i]@ == s && chat_model(s);
                            if i < k {
                                assert(before[i] == after[i]);
                                assert(chat_models_in(before).contains(s));
                                let m = choose|m: int| 0 <= m < old_out.len() && #[trigger] old_out[m]@ == s;
                                if m < p {
                                    assert(out@[m] == old_out[m]);
                                } else {
                                    assert(out@[m + 1] == old_out[m]);
                                }
                            } else {
                                assert(out@[p as int]@ == s);
                            }
                        }
                        assert forall|s: Seq<char>| #[trigger] listed(out@).contains(s) implies chat_models_in(
                            after,
                        ).contains(s) by {
                            let m = choose|m: int| 0 <= m < out@.len() && #[trigger] out@[m]@ == s;
                            if m == p {
                                assert(after[k as int] == ids@[k as int]);
                            } else {
                                let m0 = if m < p { m } else { m - 1 };
                                assert(out@[m] == old_out[m0]);
                                assert(listed(old_out).contains(s));
                                assert(chat_models_in(before).contains(s));
                                let i = choose|i: int| 0 <= i < before.len() && #[trigger] before[i]@ == s && chat_model(s);
                                assert(after[i] == before[i]);
                            }
                        }
                    }
                }
            }
        } else {
            proof {
                assert(listed(out@) =~= chat_models_in(after)) by {
                    assert forall|s: Seq<char>| #[trigger] chat_models_in(after).contains(s) implies listed(out@).contains(
                        s,
                    ) by {
                        let i = choose|i: int| 0 <= i < after.len() && #[trigger] after[i]@ == s && chat_model(s);
                        assert(before[i] == after[i]);
                        assert(chat_models_in(before).contains(s));
                    }
                    assert forall|s: Seq<char>| #[trigger] listed(out@).contains(s) implies chat_models_in(after).contains(
                        s,
                    ) by {
                        assert(chat_models_in(before).contains(s));
                        let i = choose|i: int| 0 <= i < before.len() && #[trigger] before[i]@ == s && chat_model(s);
                        assert(after[i] == before[i]);
                    }
                }
            }
        }
        k = k + 1;
    }
    proof {
        assert(ids@.subrange(0, k as int) =~= ids@);
    }
    if out.len() == 0 {
        proof {
            assert(listed(out@) =~= Set::<Seq<char>>::empty());
        }
        Err(String::from_str("No chat-capable models returned by provider"))
    } else {
        proof {
            assert(listed(out@).contains(out@[0]@));
        }
        Ok(out)
    }
}

} // verus!
