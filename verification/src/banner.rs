use vstd::prelude::*;

verus! {

/// The characters of the startup banner.
pub open spec fn banner_text() -> Seq<char> {
    r#"
 __  __      __
/\ \/\ \  __/\ \__
\ \ \/'/'/\_\ \ ,_\  _ __   ___     ___
 \ \ , < \/\ \ \ \/ /\`'__\/ __`\ /' _ `\
  \ \ \\`\\ \ \ \ \_\ \ \//\ \L\ \/\ \/\ \
   \ \_\ \_\ \_\ \__\\ \_\\ \____/\ \_\ \_\
    \/_/\/_/\/_/\/__/ \/_/ \/___/  \/_/\/_/
"#@
}

/// Returns the banner that the process prints at startup.
pub fn get_banner() -> (r: &'static str)
    ensures
        r@ == banner_text(),
{
    r#"
 __  __      __
/\ \/\ \  __/\ \__
\ \ \/'/'/\_\ \ ,_\  _ __   ___     ___
 \ \ , < \/\ \ \ \/ /\`'__\/ __`\ /' _ `\
  \ \ \\`\\ \ \ \ \_\ \ \//\ \L\ \/\ \/\ \
   \ \_\ \_\ \_\ \__\\ \_\\ \____/\ \_\ \_\
    \/_/\/_/\/_/\/__/ \/_/ \/___/  \/_/\/_/
"#
}

} // verus!
