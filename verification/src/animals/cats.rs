//! What a cat says, compared with a dog.

use vstd::prelude::*;

verus! {

/// The cat's sound.
pub open spec fn meow_text() -> Seq<char> {
    "喵喵喵！"@
}

/// The cat's sound.
pub fn meow() -> (r: &'static str)
    ensures
        r@ == meow_text(),
{
    "喵喵喵！"
}

/// "猫叫: <cat>，狗叫: <dog>".
pub fn compare_with_dog() -> (r: String)
    ensures
        r@ == "猫叫: "@ + meow_text() + "，狗叫: "@ + super::dogs::bark_text(),
{
    let dog_sound = super::dogs::bark();
    let mut r = String::from_str("猫叫: ");
    r.append(meow());
    r.append("，狗叫: ");
    r.append(dog_sound);
    r
}

} // verus!
