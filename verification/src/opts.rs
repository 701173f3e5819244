//! Rendering options, and their mapping into a JS-shaped configuration value.

use vstd::prelude::*;

use crate::value::Value;

verus! {

/// Options handed to the typesetting script's entry point.
///
/// The configuration travels to the script as one JS object whose key order
/// is fixed; optional fields are present only when set.
#[derive(Debug)]
pub struct Opts {
    /// Render in display (block) mode rather than inline mode.
    pub display_mode: bool,
    /// Place equation numbers on the left.
    pub leqno: bool,
    /// Left-align display-mode equations.
    pub fleqn: bool,
    /// Raise a script-level error on bad markup instead of rendering it red.
    pub throw_on_error: bool,
    /// Colour used for bad markup when errors are not thrown.
    pub error_color: Option<String>,
    /// Limit on macro expansions inside the script.
    pub max_expand: Option<i32>,
}

impl Opts {
    /// The key/value pairs, in order, of the JS configuration object this
    /// options value maps to. Keys of unset optional fields are absent.
    pub open spec fn js_pairs(&self) -> Seq<(Seq<char>, Value)> {
        let base: Seq<(Seq<char>, Value)> = seq![
            ("displayMode"@, Value::Bool(self.display_mode)),
            ("leqno"@, Value::Bool(self.leqno)),
            ("fleqn"@, Value::Bool(self.fleqn)),
            ("throwOnError"@, Value::Bool(self.throw_on_error)),
        ];
        let with_color = match self.error_color {
            Some(c) => base.push(("errorColor"@, Value::Str(c))),
            None => base,
        };
        match self.max_expand {
            Some(m) => with_color.push(("maxExpand"@, Value::Int(m))),
            None => with_color,
        }
    }

    /// Converts the options into the JS object value consumed by the script,
    /// with exactly the pairs of `js_pairs`, in that order.
    pub fn to_js_value(&self) -> (r: Value)
        ensures
            (r matches Value::Object(pairs) && pairs@.map_values(
                |p: (String, Value)| (p.0@, p.1),
            ) =~= self.js_pairs()),
    {
        let mut pairs: Vec<(String, Value)> = Vec::new();
        pairs.push(("displayMode".to_owned(), Value::Bool(self.display_mode)));
        pairs.push(("leqno".to_owned(), Value::Bool(self.leqno)));
        pairs.push(("fleqn".to_owned(), Value::Bool(self.fleqn)));
        pairs.push(("throwOnError".to_owned(), Value::Bool(self.throw_on_error)));
        match &self.error_color {
            Some(c) => pairs.push(("errorColor".to_owned(), Value::Str(c.clone()))),
            None => {},
        }
        match self.max_expand {
            Some(m) => pairs.push(("maxExpand".to_owned(), Value::Int(m))),
            None => {},
        }
        Value::Object(pairs)
    }
}

impl Default for Opts {
    /// The default configuration: inline mode, numbering and alignment off,
    /// script-level errors thrown, no optional overrides.
    fn default() -> (r: Opts)
        ensures
            !r.display_mode,
            !r.leqno,
            !r.fleqn,
            r.throw_on_error,
            r.error_color is None,
            r.max_expand is None,
    {
        Opts {
            display_mode: false,
            leqno: false,
            fleqn: false,
            throw_on_error: true,
            error_color: None,
            max_expand: None,
        }
    }
}

} // verus!
