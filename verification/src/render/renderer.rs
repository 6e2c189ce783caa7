//! The renderer: component → node tree → inlined styles → HTML or plain text.

use vstd::prelude::*;
use crate::text::string_of;
use crate::email_core::component::Component;
use crate::email_core::node::{Node, NodeView};
use crate::render::css_inliner::{inline_styles, inlined_view};
use crate::render::html::{html_of, pretty_of, emit_node, emit_node_pretty};
use crate::render::html_emitter::doctype;
use crate::render::text_extractor::{extract_text, plain_text_of};

verus! {

broadcast use vstd::string::group_string_axioms;

/// Errors that can occur during rendering.
#[derive(Debug)]
pub enum RenderError {
    /// A rendering operation failed.
    RenderFailed(String),
}

impl RenderError {
    /// The message of this error: `render error: <msg>`.
    pub open spec fn message(self) -> Seq<char> {
        match self {
            RenderError::RenderFailed(msg) => "render error: "@ + msg@,
        }
    }

    /// The text of this error.
    pub fn to_string(&self) -> (s: String)
        ensures
            s@ == self.message(),
    {
        match self {
            RenderError::RenderFailed(msg) => {
                let mut s = String::from_str("render error: ");
                s.append(msg.as_str());
                s
            },
        }
    }
}

/// Configuration for the renderer.
#[derive(Debug)]
pub struct RenderConfig {
    /// Whether to prepend `<!DOCTYPE html>` to the output.
    pub include_doctype: bool,
    /// Whether to pretty-print the HTML with indentation.
    pub pretty_print: bool,
    /// Indentation string for pretty-printing (default: two spaces).
    pub indent: String,
}

impl Clone for RenderConfig {
    fn clone(&self) -> (r: Self)
        ensures
            r == *self,
    {
        RenderConfig {
            include_doctype: self.include_doctype,
            pretty_print: self.pretty_print,
            indent: self.indent.clone(),
        }
    }
}

impl Default for RenderConfig {
    fn default() -> (c: RenderConfig)
        ensures
            c.include_doctype,
            !c.pretty_print,
            c.indent@ == "  "@,
    {
        RenderConfig { include_doctype: true, pretty_print: false, indent: string_of("  ") }
    }
}

/// `s` is the document of a tree that `component.render()` may return.
pub open spec fn renders_document<C: Component>(component: &C, config: RenderConfig, s: Seq<char>) -> bool {
    exists|n: Node| #[trigger] call_ensures(C::render, (component,), n) && s == document(config, n@)
}

/// `s` is the component's own plain text, as `plain_text()` may give it,
/// or, when that gives none, the text extracted from a tree that
/// `render()` may return.
pub open spec fn renders_text<C: Component>(component: &C, s: Seq<char>) -> bool {
    exists|custom: Option<String>| #[trigger] call_ensures(C::plain_text, (component,), custom) && match custom {
        Some(t) => s == t@,
        None => exists|n: Node| #[trigger] call_ensures(C::render, (component,), n) && s == plain_text_of(n@),
    }
}

/// The HTML document of a node tree under a configuration: the DOCTYPE line
/// if asked for, then the inlined tree, compact or pretty-printed.
pub open spec fn document(config: RenderConfig, n: NodeView) -> Seq<char> {
    let body = if config.pretty_print {
        pretty_of(inlined_view(n), 0, config.indent@)
    } else {
        html_of(inlined_view(n))
    };
    if config.include_doctype {
        "<!DOCTYPE html>"@ + "\n"@ + body
    } else {
        body
    }
}

/// The renderer.
///
/// Takes a `Component`, calls its `render()` method to produce a `Node`
/// tree, inlines CSS styles, and emits email-safe HTML.
pub struct Renderer {
    pub config: RenderConfig,
}

impl Renderer {
    /// Create a new renderer with default configuration.
    pub fn new() -> (r: Renderer)
        ensures
            r.config.include_doctype,
            !r.config.pretty_print,
            r.config.indent@ == "  "@,
    {
        Renderer { config: RenderConfig::default() }
    }

    /// Create a new renderer with custom configuration.
    pub fn with_config(config: RenderConfig) -> (r: Renderer)
        ensures
            r.config == config,
    {
        Renderer { config }
    }

    /// Render a node tree to an HTML document.
    pub fn render_html_node(&self, node: &Node) -> (s: String)
        ensures
            s@ == document(self.config, node@),
    {
        let inlined = inline_styles(node);
        let mut output = String::new();
        if self.config.include_doctype {
            output.append(doctype());
            output.append("\n");
        }
        if self.config.pretty_print {
            emit_node_pretty(&inlined, self.config.indent.as_str(), &mut output, 0);
        } else {
            emit_node(&inlined, &mut output);
        }
        output
    }

    /// Render a component to an HTML string.
    pub fn render_html<C: Component>(&self, component: &C) -> (r: Result<String, RenderError>)
        ensures
            r matches Ok(s) && renders_document(component, self.config, s@)
                && (component.obeys_render_spec() ==> s@ == document(self.config, component.spec_render())),
    {
        let node = component.render();
        let s = self.render_html_node(&node);
        assert(call_ensures(C::render, (component,), node));
        assert(s@ == document(self.config, node@));
        Ok(s)
    }

    /// The plain text of a component: its own text if it gives one,
    /// otherwise the text extracted from its tree.
    pub fn render_text_of(&self, custom: Option<String>, node: &Node) -> (s: String)
        ensures
            s@ == match custom {
                Some(t) => t@,
                None => plain_text_of(node@),
            },
    {
        match custom {
            Some(t) => t,
            None => extract_text(node),
        }
    }

    /// Render a component to a plain text string.
    ///
    /// The component's own plain text is used when it gives one; otherwise
    /// the text is extracted from its node tree.
    pub fn render_text<C: Component>(&self, component: &C) -> (r: Result<String, RenderError>)
        ensures
            r matches Ok(s) && renders_text(component, s@),
            component.obeys_render_spec() ==> (r matches Ok(s) && s@ == plain_text_of(component.spec_render())),
    {
        let custom = component.plain_text();
        assert(call_ensures(C::plain_text, (component,), custom));
        if let Some(custom_text) = custom {
            return Ok(custom_text);
        }
        let node = component.render();
        assert(call_ensures(C::render, (component,), node));
        Ok(extract_text(&node))
    }

    /// Render a single Node to an HTML string (without DOCTYPE).
    pub fn render_node(&self, node: &Node) -> (s: String)
        ensures
            s@ == html_of(inlined_view(node@)),
    {
        let inlined = inline_styles(node);
        let mut output = String::new();
        emit_node(&inlined, &mut output);
        output
    }
}

impl Default for Renderer {
    fn default() -> (r: Renderer)
        ensures
            r.config.include_doctype,
            !r.config.pretty_print,
            r.config.indent@ == "  "@,
    {
        Renderer::new()
    }
}

} // verus!
