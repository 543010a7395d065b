//! The configuration of the middleware.

use vstd::prelude::*;

verus! {

/// The configuration: the identity of the project, the delivery mode, the
/// masking policy and the routes that are not observed.
#[derive(Clone, Debug)]
pub struct Treblle {
    pub project_id: String,
    pub api_key: String,
    pub debug: bool,
    pub masking_fields: Vec<String>,
    pub ignored_routes: Vec<String>,
}

/// The names that are masked unless the policy is changed.
pub open spec fn default_masking_fields() -> Seq<Seq<char>> {
    seq![
        "password"@,
        "pwd"@,
        "secret"@,
        "password_confirmation"@,
        "passwordConfirmation"@,
        "cc"@,
        "card_number"@,
        "cardNumber"@,
        "ccv"@,
        "ssn"@,
        "credit_score"@,
        "creditScore"@,
    ]
}

impl Treblle {
    /// The configuration of a project: not in debug mode, with the default
    /// masking policy, and with no route ignored.
    pub fn new(project_id: String, api_key: String) -> (treblle: Treblle)
        ensures
            treblle.project_id == project_id,
            treblle.api_key == api_key,
            !treblle.debug,
            treblle.masking_fields.deep_view() == default_masking_fields(),
            treblle.ignored_routes@.len() == 0,
    {
        let mut masking_fields: Vec<String> = Vec::new();
        masking_fields.push("password".to_owned());
        masking_fields.push("pwd".to_owned());
        masking_fields.push("secret".to_owned());
        masking_fields.push("password_confirmation".to_owned());
        masking_fields.push("passwordConfirmation".to_owned());
        masking_fields.push("cc".to_owned());
        masking_fields.push("card_number".to_owned());
        masking_fields.push("cardNumber".to_owned());
        masking_fields.push("ccv".to_owned());
        masking_fields.push("ssn".to_owned());
        masking_fields.push("credit_score".to_owned());
        masking_fields.push("creditScore".to_owned());
        assert(masking_fields.deep_view() =~= default_masking_fields());
        Treblle {
            project_id,
            api_key,
            debug: false,
            masking_fields,
            ignored_routes: Vec::new(),
        }
    }

    /// The same configuration in debug mode.
    pub fn debug(self) -> (treblle: Treblle)
        ensures
            treblle.debug,
            treblle.project_id == self.project_id,
            treblle.api_key == self.api_key,
            treblle.masking_fields == self.masking_fields,
            treblle.ignored_routes == self.ignored_routes,
    {
        let mut treblle = self;
        treblle.debug = true;
        treblle
    }

    /// The same configuration with an empty masking policy.
    pub fn clear_masking_fields(self) -> (treblle: Treblle)
        ensures
            treblle.masking_fields@.len() == 0,
            treblle.project_id == self.project_id,
            treblle.api_key == self.api_key,
            treblle.debug == self.debug,
            treblle.ignored_routes == self.ignored_routes,
    {
        let mut treblle = self;
        treblle.masking_fields.clear();
        treblle
    }

    /// The same configuration with `fields` added to the end of the masking
    /// policy.
    pub fn add_masking_fields(self, fields: Vec<String>) -> (treblle: Treblle)
        ensures
            treblle.masking_fields@ == self.masking_fields@ + fields@,
            treblle.project_id == self.project_id,
            treblle.api_key == self.api_key,
            treblle.debug == self.debug,
            treblle.ignored_routes == self.ignored_routes,
    {
        let mut treblle = self;
        let mut fields = fields;
        treblle.masking_fields.append(&mut fields);
        treblle
    }

    /// The same configuration with `routes` added to the end of the ignored
    /// routes.
    pub fn add_ignored_routes(self, routes: Vec<String>) -> (treblle: Treblle)
        ensures
            treblle.ignored_routes@ == self.ignored_routes@ + routes@,
            treblle.project_id == self.project_id,
            treblle.api_key == self.api_key,
            treblle.debug == self.debug,
            treblle.masking_fields == self.masking_fields,
    {
        let mut treblle = self;
        let mut routes = routes;
        treblle.ignored_routes.append(&mut routes);
        treblle
    }
}

} // verus!
