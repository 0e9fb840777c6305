//! The demo session: four windows tiled two by two, each painted in its
//! colour, then talking to each other over a `BroadcastChannel`.

use vstd::prelude::*;
use crate::text::{concat3, decimal, decimal_text};

verus! {

/// The width of a demo window.
pub const TILE_WIDTH: i32 = 640;

/// The height of a demo window.
pub const TILE_HEIGHT: i32 = 480;

/// A demo window: its colour, its name and its position.
pub struct DemoTile {
    pub color: String,
    pub name: String,
    pub x: i32,
    pub y: i32,
}

/// The demo windows: red, blue, green and orange, tiled two by two from the
/// top left.
pub open spec fn demo_layout() -> Seq<(Seq<char>, Seq<char>, i32, i32)> {
    seq![
        ("#e74c3c"@, "Red"@, 0i32, 0i32),
        ("#3498db"@, "Blue"@, 640i32, 0i32),
        ("#2ecc71"@, "Green"@, 0i32, 480i32),
        ("#f39c12"@, "Orange"@, 640i32, 480i32),
    ]
}

fn tile(color: &str, name: &str, x: i32, y: i32) -> (t: DemoTile)
    ensures
        (t.color@, t.name@, t.x, t.y) == (color@, name@, x, y),
{
    DemoTile { color: String::from_str(color), name: String::from_str(name), x, y }
}

/// The demo windows, in order.
pub fn demo_tiles() -> (r: Vec<DemoTile>)
    ensures
        r@.len() == 4,
        forall|i: int| 0 <= i < 4 ==> (#[trigger] r@[i].color@, r@[i].name@, r@[i].x, r@[i].y) == demo_layout()[i],
{
    let mut r: Vec<DemoTile> = Vec::new();
    r.push(tile("#e74c3c", "Red", 0, 0));
    r.push(tile("#3498db", "Blue", TILE_WIDTH, 0));
    r.push(tile("#2ecc71", "Green", 0, TILE_HEIGHT));
    r.push(tile("#f39c12", "Orange", TILE_WIDTH, TILE_HEIGHT));
    r
}

/// The script that titles, paints and labels demo window `i`.
pub open spec fn window_script(i: nat, name: Seq<char>, color: Seq<char>) -> Seq<char> {
    "document.title = 'Window "@ + decimal(i) + " - "@ + name
        + "';\n               document.body.style.cssText = 'margin:0;display:flex;align-items:center;\\\n               justify-content:center;background:"@
        + color
        + ";font-family:sans-serif;height:100vh';\n               document.body.innerHTML = '<h1 style=\"color:white;font-size:3em;text-align:center\">\\\n               Window "@
        + decimal(i) + "<br>"@ + name + "</h1>';"@
}

/// The script that titles, paints and labels demo window `i`.
pub fn window_paint_script(i: u64, name: &str, color: &str) -> (r: String)
    ensures
        r@ == window_script(i as nat, name@, color@),
{
    let n = decimal_text(i);
    let mut s = concat3("document.title = 'Window ", n.as_str(), " - ");
    s.append(name);
    s.append(
        "';\n               document.body.style.cssText = 'margin:0;display:flex;align-items:center;\\\n               justify-content:center;background:",
    );
    s.append(color);
    s.append(
        ";font-family:sans-serif;height:100vh';\n               document.body.innerHTML = '<h1 style=\"color:white;font-size:3em;text-align:center\">\\\n               Window ",
    );
    s.append(n.as_str());
    s.append("<br>");
    s.append(name);
    s.append("</h1>';");
    s
}

/// The script that makes demo window `i` collect and show the messages of
/// the `demo` channel.
pub open spec fn listener_script(i: nat) -> Seq<char> {
    "window._received = [];\n               const bc = new BroadcastChannel('demo');\n               bc.onmessage = e => {\n                   window._received.push(e.data);\n                   document.querySelector('h1').innerHTML =\n                       'Window "@
        + decimal(i)
        + "<br>Got: ' + e.data;\n               };"@
}

/// The script that makes demo window `i` collect and show the messages of
/// the `demo` channel.
pub fn window_listener_script(i: u64) -> (r: String)
    ensures
        r@ == listener_script(i as nat),
{
    let n = decimal_text(i);
    concat3(
        "window._received = [];\n               const bc = new BroadcastChannel('demo');\n               bc.onmessage = e => {\n                   window._received.push(e.data);\n                   document.querySelector('h1').innerHTML =\n                       'Window ",
        n.as_str(),
        "<br>Got: ' + e.data;\n               };",
    )
}

/// The expression whose value is demo window `i`'s greeting.
pub fn greeting_expression(i: u64) -> (r: String)
    ensures
        r@ == "'Hello from window "@ + decimal(i as nat) + "'"@,
{
    let n = decimal_text(i);
    concat3("'Hello from window ", n.as_str(), "'")
}

} // verus!
