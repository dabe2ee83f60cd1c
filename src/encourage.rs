//! Encouragements and conversation starters, one picked at random.

use rand::Rng;
use vstd::prelude::*;

verus! {

/// Relies on rand's `rng().random_range`: an index drawn below `len`, which
/// it requires to be positive.
#[verifier::external_body]
fn random_index(len: usize) -> (r: usize)
    requires
        len > 0,
    ensures
        r < len,
{
    rand::rng().random_range(0..len)
}

/// The number of encouragements.
pub const ENCOURAGEMENT_COUNT: usize = 6;

/// The number of conversation starters.
pub const TOPIC_COUNT: usize = 6;

/// The `i`-th encouragement.
pub open spec fn encouragement_text(i: int) -> Seq<char> {
    if i == 0 {
        "焦らず、自分のペースで進めましょうね。"@
    } else if i == 1 {
        "無理せず、できることからで大丈夫ですよ。"@
    } else if i == 2 {
        "あなたならきっと大丈夫です！"@
    } else if i == 3 {
        "今日も一歩前進ですね。応援しています。"@
    } else if i == 4 {
        "疲れたら、少し休むのも大事ですよ。"@
    } else {
        "頑張りすぎないでくださいね。ことのははいつでも味方です。"@
    }
}

/// The `i`-th conversation starter.
pub open spec fn topic_text(i: int) -> Seq<char> {
    if i == 0 {
        "ところで、最近ハマっていることはありますか？"@
    } else if i == 1 {
        "最近見た映画や本でおすすめはありますか？"@
    } else if i == 2 {
        "お休みの日はどんなふうに過ごされていますか？"@
    } else if i == 3 {
        "好きな食べ物を教えてください！"@
    } else if i == 4 {
        "最近チャレンジしたことがあれば、ぜひ聞かせてください！"@
    } else {
        "今日の天気、いい感じでしたか？"@
    }
}

/// The `i`-th encouragement.
pub fn encouragement(i: usize) -> (r: &'static str)
    requires
        i < ENCOURAGEMENT_COUNT,
    ensures
        r@ == encouragement_text(i as int),
{
    match i {
        0 => "焦らず、自分のペースで進めましょうね。",
        1 => "無理せず、できることからで大丈夫ですよ。",
        2 => "あなたならきっと大丈夫です！",
        3 => "今日も一歩前進ですね。応援しています。",
        4 => "疲れたら、少し休むのも大事ですよ。",
        _ => "頑張りすぎないでくださいね。ことのははいつでも味方です。",
    }
}

/// The `i`-th conversation starter.
pub fn topic(i: usize) -> (r: &'static str)
    requires
        i < TOPIC_COUNT,
    ensures
        r@ == topic_text(i as int),
{
    match i {
        0 => "ところで、最近ハマっていることはありますか？",
        1 => "最近見た映画や本でおすすめはありますか？",
        2 => "お休みの日はどんなふうに過ごされていますか？",
        3 => "好きな食べ物を教えてください！",
        4 => "最近チャレンジしたことがあれば、ぜひ聞かせてください！",
        _ => "今日の天気、いい感じでしたか？",
    }
}

/// One of the encouragements, picked at random.
pub fn random_encouragement() -> (r: &'static str)
    ensures
        exists|i: int| 0 <= i < ENCOURAGEMENT_COUNT && r@ == encouragement_text(i),
{
    encouragement(random_index(ENCOURAGEMENT_COUNT))
}

/// One of the conversation starters, picked at random.
pub fn random_topic() -> (r: &'static str)
    ensures
        exists|i: int| 0 <= i < TOPIC_COUNT && r@ == topic_text(i),
{
    topic(random_index(TOPIC_COUNT))
}

} // verus!
