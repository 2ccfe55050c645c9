//! The administrative page that shows and changes the tier mapping.
use crate::config::Config;
use crate::models::opt_text;
use vstd::prelude::*;

verus! {

/// What `minijinja` renders from the page template for the three tier
/// targets and the model catalogue (JSON text); `None` when rendering fails.
pub uninterp spec fn rendered_page(
    haiku: Seq<char>,
    sonnet: Seq<char>,
    opus: Seq<char>,
    models_json: Seq<char>,
) -> Option<Seq<char>>;

/// The page template. It reads `model_haiku`, `model_sonnet`, `model_opus`
/// and `models_json`.
pub const SWITCH_MODEL_TEMPLATE: &'static str = "<!doctype html>
<html>
<head><meta charset=\"utf-8\"><title>Switch model</title></head>
<body>
<h1>Model mapping</h1>
<form id=\"f\">
  <label>Haiku <input name=\"haiku\" list=\"models\" value=\"{{ model_haiku }}\"></label><br>
  <label>Sonnet <input name=\"sonnet\" list=\"models\" value=\"{{ model_sonnet }}\"></label><br>
  <label>Opus <input name=\"opus\" list=\"models\" value=\"{{ model_opus }}\"></label><br>
  <datalist id=\"models\"></datalist>
  <button type=\"submit\">Save</button>
</form>
<script>
const models = {{ models_json }};
const list = document.getElementById(\"models\");
for (const m of models) {
  const o = document.createElement(\"option\");
  o.value = m.id;
  o.label = m.name;
  list.appendChild(o);
}
document.getElementById(\"f\").addEventListener(\"submit\", async (e) => {
  e.preventDefault();
  const data = Object.fromEntries(new FormData(e.target).entries());
  const r = await fetch(\"/switch-model\", {
    method: \"POST\",
    headers: { \"Content-Type\": \"application/json\" },
    body: JSON.stringify(data),
  });
  alert(await r.text());
});
</script>
</body>
</html>
";

/// Relies on `minijinja::Environment::render_str`, on a fresh
/// `Environment::new()`: renders the page template with the four values as
/// its context. The outcome depends on those values alone.
#[verifier::external_body]
fn render_page(haiku: &str, sonnet: &str, opus: &str, models_json: &str) -> (r: Option<String>)
    ensures
        opt_text(r) == rendered_page(haiku@, sonnet@, opus@, models_json@),
{
    let ctx = std::collections::BTreeMap::from([
        ("model_haiku", haiku),
        ("model_sonnet", sonnet),
        ("model_opus", opus),
        ("models_json", models_json),
    ]);
    minijinja::Environment::new().render_str(SWITCH_MODEL_TEMPLATE, ctx).ok()
}

/// The catalogue text shown on the page: the fetched one, or `[]` when the
/// catalogue could not be fetched.
pub open spec fn catalogue_text(models_json: Option<Seq<char>>) -> Seq<char> {
    match models_json {
        Some(j) => j,
        None => "[]"@,
    }
}

/// Renders the page for the current configuration and the fetched catalogue
/// (`None` when fetching it failed).
pub fn switch_model_page(config: &Config, models_json: Option<&str>) -> (r: Option<String>)
    ensures
        opt_text(r) == rendered_page(
            config.model_haiku@,
            config.model_sonnet@,
            config.model_opus@,
            catalogue_text(
                match models_json {
                    Some(j) => Some(j@),
                    None => None,
                },
            ),
        ),
{
    let catalogue = match models_json {
        Some(j) => j,
        None => "[]",
    };
    render_page(
        config.model_haiku.as_str(),
        config.model_sonnet.as_str(),
        config.model_opus.as_str(),
        catalogue,
    )
}

} // verus!
