//! The listing page: one control per catalog entry.

use crate::catalog::Catalog;
use crate::names::spec_display_name;
use vstd::prelude::*;
use vstd::string::*;

verus! {

/// The page up to the first control.
pub const PAGE_HEAD: &'static str = "<!doctype html>
<html>
  <head>
    <title>Tatoteco</title>
  </head>
  <body>
    <script>
      function change_to(map) {
        const req = new XMLHttpRequest();
        req.open(\"POST\", \"map\");
        req.setRequestHeader(\"Content-Type\", \"application/json\");
        req.send(JSON.stringify({\"map\": map}));
      }
    </script>
    <h1>Tatoteco</h1>
";

/// The page after the last control.
pub const PAGE_TAIL: &'static str = "  </body>
</html>
";

/// A control up to the file name it selects.
pub const BUTTON_OPEN: &'static str = "    <button style=\"width:460px; font-size:2em\" data-map=\"";

/// A control between the file name it selects and the address of its image.
pub const BUTTON_IMAGE: &'static str =
    "\" onclick=\"change_to(this.dataset.map)\"><img style=\"width:450px\" src=\"img/";

/// A control between the address of its image and its label.
pub const BUTTON_LABEL: &'static str = "\" /><br/>";

/// A control after its label.
pub const BUTTON_CLOSE: &'static str = "</button>
";

/// What stands for `c` in HTML text and in a quoted attribute value.
pub open spec fn spec_escape_char(c: char) -> Seq<char> {
    if c == '&' {
        seq!['&', 'a', 'm', 'p', ';']
    } else if c == '<' {
        seq!['&', 'l', 't', ';']
    } else if c == '>' {
        seq!['&', 'g', 't', ';']
    } else if c == '"' {
        seq!['&', 'q', 'u', 'o', 't', ';']
    } else if c == '\'' {
        seq!['&', '#', '3', '9', ';']
    } else {
        seq![c]
    }
}

/// `s` with each character replaced by what stands for it.
pub open spec fn spec_escape_html(s: Seq<char>) -> Seq<char>
    decreases s.len(),
{
    if s.len() == 0 {
        Seq::empty()
    } else {
        spec_escape_html(s.drop_last()) + spec_escape_char(s.last())
    }
}

/// The control of the entry `filename`: activating it selects that file.
pub open spec fn spec_button(filename: Seq<char>) -> Seq<char> {
    BUTTON_OPEN@ + spec_escape_html(filename) + BUTTON_IMAGE@ + spec_escape_html(filename)
        + BUTTON_LABEL@ + spec_escape_html(spec_display_name(filename)) + BUTTON_CLOSE@
}

/// The controls of the entries `names`, in order.
pub open spec fn spec_buttons(names: Seq<Seq<char>>) -> Seq<char>
    decreases names.len(),
{
    if names.len() == 0 {
        Seq::empty()
    } else {
        spec_buttons(names.drop_last()) + spec_button(names.last())
    }
}

/// The listing page of a catalog with the file names `names`.
pub open spec fn spec_page(names: Seq<Seq<char>>) -> Seq<char> {
    PAGE_HEAD@ + spec_buttons(names) + PAGE_TAIL@
}

/// Escaped text holds no character that could end a quoted attribute value
/// or open a tag.
pub proof fn lemma_escape_html_safe(s: Seq<char>)
    ensures
        forall|i: int|
            0 <= i < spec_escape_html(s).len() ==> {
                let c = #[trigger] spec_escape_html(s)[i];
                c != '<' && c != '>' && c != '"' && c != '\''
            },
    decreases s.len(),
{
    if s.len() > 0 {
        let head = spec_escape_html(s.drop_last());
        let tail = spec_escape_char(s.last());
        lemma_escape_html_safe(s.drop_last());
        assert forall|i: int| 0 <= i < spec_escape_html(s).len() implies {
            let c = #[trigger] spec_escape_html(s)[i];
            c != '<' && c != '>' && c != '"' && c != '\''
        } by {
            if i < head.len() {
                assert(spec_escape_html(s)[i] == head[i]);
            } else {
                assert(spec_escape_html(s)[i] == tail[i - head.len()]);
            }
        }
    }
}

/// Escapes `s` for HTML text and quoted attribute values.
pub fn escape_html(s: &str) -> (out: String)
    ensures
        out@ == spec_escape_html(s@),
{
    let mut out = String::new();
    for c in it: s.chars()
        invariant
            it.seq() == s@,
            out@ == spec_escape_html(s@.take(it.index())),
    {
        proof {
            reveal_strlit("&amp;");
            reveal_strlit("&lt;");
            reveal_strlit("&gt;");
            reveal_strlit("&quot;");
            reveal_strlit("&#39;");
            assert(s@.take(it.index() + 1).drop_last() =~= s@.take(it.index()));
            assert(s@.take(it.index() + 1).last() == c);
        }
        let ghost before = out@;
        if c == '&' {
            out.append("&amp;");
        } else if c == '<' {
            out.append("&lt;");
        } else if c == '>' {
            out.append("&gt;");
        } else if c == '"' {
            out.append("&quot;");
        } else if c == '\'' {
            out.append("&#39;");
        } else {
            out.push(c);
        }
        assert(out@ =~= before + spec_escape_char(c));
    }
    assert(s@.take(s@.len() as int) =~= s@);
    out
}

/// Renders the listing page of `catalog`.
pub fn render_page(catalog: &Catalog) -> (page: String)
    ensures
        page@ == spec_page(catalog@),
{
    let n: usize = catalog.len();
    let mut page = PAGE_HEAD.to_owned();
    let mut i: usize = 0;
    while i < n
        invariant
            i <= n,
            n == catalog@.len(),
            page@ == PAGE_HEAD@ + spec_buttons(catalog@.take(i as int)),
        decreases n - i,
    {
        let ghost before = page@;
        let entry = catalog.get(i).unwrap();
        let name = escape_html(entry.filename());
        let label = escape_html(entry.display_name());
        page.append(BUTTON_OPEN);
        page.append(name.as_str());
        page.append(BUTTON_IMAGE);
        page.append(name.as_str());
        page.append(BUTTON_LABEL);
        page.append(label.as_str());
        page.append(BUTTON_CLOSE);
        proof {
            assert(catalog@.take(i + 1).drop_last() =~= catalog@.take(i as int));
            assert(catalog@.take(i + 1).last() == catalog@[i as int]);
            assert(page@ =~= before + spec_button(catalog@[i as int]));
            assert(page@ =~= PAGE_HEAD@ + spec_buttons(catalog@.take(i + 1)));
        }
        i += 1;
    }
    assert(catalog@.take(i as int) =~= catalog@);
    page.append(PAGE_TAIL);
    page
}

} // verus!
