use vstd::prelude::*;

verus! {

/// The page that loads the app `app`: it imports `/<app>.js` and starts it
/// with `<app>.wasm`.
pub open spec fn example_index_spec(app: Seq<char>) -> Seq<char> {
    "<!DOCTYPE html><html><head><meta charset=\"utf-8\"/><script type=\"module\">import init from \"/"@
        + app + ".js\";init(new URL('"@ + app
        + ".wasm', import.meta.url));</script></head><body></body></html>"@
}

/// The `index.html` served for an example whose app is named `app_name`.
pub fn example_index_html(app_name: &str) -> (r: String)
    ensures
        r@ == example_index_spec(app_name@),
{
    let mut r = String::from_str(
        "<!DOCTYPE html><html><head><meta charset=\"utf-8\"/><script type=\"module\">import init from \"/",
    );
    r.append(app_name);
    r.append(".js\";init(new URL('");
    r.append(app_name);
    r.append(".wasm', import.meta.url));</script></head><body></body></html>");
    r
}

} // verus!
