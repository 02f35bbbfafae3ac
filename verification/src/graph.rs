//! The page of the GraphiQL console.

use vstd::prelude::*;
use vstd::string::*;

verus! {
/// The page up to its title.
pub const PAGE_HEAD: &'static str = r#"
			<!DOCTYPE html>
			<html>
				<head>
					<title>"#;

/// The page between its title and its style.
pub const PAGE_AFTER_TITLE: &'static str = r#"</title>
					"#;

/// The page between its style and the address of the endpoint.
pub const PAGE_AFTER_STYLE: &'static str = r#"
					<script src="https://cdn.jsdelivr.net/es6-promise/4.0.5/es6-promise.auto.min.js"></script>
					<script src="https://cdn.jsdelivr.net/fetch/0.9.0/fetch.min.js"></script>
					<script src="https://cdn.jsdelivr.net/react/15.4.2/react.min.js"></script>
					<script src="https://cdn.jsdelivr.net/react/15.4.2/react-dom.min.js"></script>
					<link rel="stylesheet" href="https://cdnjs.cloudflare.com/ajax/libs/graphiql/0.11.11/graphiql.min.css" />
					<script src="https://cdnjs.cloudflare.com/ajax/libs/graphiql/0.11.11/graphiql.min.js"></script>
				</head>
				<body>
				<div id="graphiql">Loading...</div>
				<script>var GRAPHQL_URL = '"#;

/// The page between the address of the endpoint and its script.
pub const PAGE_AFTER_URL: &'static str = r#"';</script>
				"#;

/// The end of the page.
pub const PAGE_TAIL: &'static str = r#"
				</body>
			</html>
		"#;

/// The style of the page.
pub const STYLE: &'static str = r#"
	<style>
	body {
		height: 100%;
		margin: 0;
		width: 100%;
		overflow: hidden;
	}
	#graphiql {
		height: 100vh;
	}
	</style>
"#;

/// The script of the page: it keeps the query in the address of the page and
/// sends it to the endpoint.
pub const SCRIPT: &'static str = r#"
	<script>
		/**
		 * This GraphiQL example illustrates how to use some of GraphiQL's props
		 * in order to enable reading and updating the URL parameters, making
		 * link sharing of queries a little bit easier.
		 *
		 * This is only one example of this kind of feature, GraphiQL exposes
		 * various React params to enable interesting integrations.
		 */
		// Parse the search string to get url parameters.
		var search = window.location.search;
		var parameters = {};
		search.substr(1).split('&').forEach(function (entry) {
			var eq = entry.indexOf('=');
			if (eq >= 0) {
				parameters[decodeURIComponent(entry.slice(0, eq))] =
				decodeURIComponent(entry.slice(eq + 1));
			}
		});
		// If variables was provided, try to format it.
		if (parameters.variables) {
			try {
				parameters.variables =
				JSON.stringify(JSON.parse(parameters.variables), null, 2);
			} catch (e) {
				// Do nothing, we want to display the invalid JSON as a string, rather
				// than present an error.
			}
		}
		// When the query and variables string is edited, update the URL bar so
		// that it can be easily shared.
		function onEditQuery(newQuery) {
			parameters.query = newQuery;
			updateURL();
		}
		function onEditVariables(newVariables) {
			parameters.variables = newVariables;
			updateURL();
		}
		function onEditOperationName(newOperationName) {
			parameters.operationName = newOperationName;
			updateURL();
		}
		function updateURL() {
			var newSearch = '?' + Object.keys(parameters).filter(function (key) {
				return Boolean(parameters[key]);
			}).map(function (key) {
				return encodeURIComponent(key) + '=' +
				encodeURIComponent(parameters[key]);
			}).join('&');
			history.replaceState(null, null, newSearch);
		}
		// Defines a GraphQL fetcher using the fetch API. You're not required to
		// use fetch, and could instead implement graphQLFetcher however you like,
		// as long as it returns a Promise or Observable.
		function graphQLFetcher(graphQLParams) {
			// When working locally, the example expects a GraphQL server at the path /graphql.
			// In a PR preview, it connects to the Star Wars API externally.
			// Change this to point wherever you host your GraphQL server.
			const isDev = !window.location.hostname.match(/(^|\.)netlify\.com$|(^|\.)graphql\.org$/)
			const api = GRAPHQL_URL
			return fetch(api, {
				method: 'post',
				headers: {
				'Accept': 'application/json',
				'Content-Type': 'application/json',
				},
				body: JSON.stringify(graphQLParams),
				credentials: 'include',
			}).then(function (response) {
				return response.text();
			}).then(function (responseBody) {
				try {
				return JSON.parse(responseBody);
				} catch (error) {
				return responseBody;
				}
			});
		}
		// Render <GraphiQL /> into the body.
		// See the README in the top level of this module to learn more about
		// how you can customize GraphiQL by providing different values or
		// additional child elements.
		ReactDOM.render(
			React.createElement(GraphiQL, {
				fetcher: graphQLFetcher,
				query: parameters.query,
				variables: parameters.variables,
				operationName: parameters.operationName,
				onEditQuery: onEditQuery,
				onEditVariables: onEditVariables,
				defaultVariableEditorOpen: true,
				onEditOperationName: onEditOperationName
			}),
			document.getElementById('graphiql')
		);
	</script>
"#;

/// The text of the console page with the title `title` for the endpoint at
/// `url`.
pub open spec fn page_text(title: Seq<char>, url: Seq<char>) -> Seq<char> {
    PAGE_HEAD@ + title + PAGE_AFTER_TITLE@ + STYLE@ + PAGE_AFTER_STYLE@ + url + PAGE_AFTER_URL@
        + SCRIPT@ + PAGE_TAIL@
}

/// The console page with the title `title` for the endpoint at `url`. Both
/// are put in as they are.
pub fn graphiql_source(title: &str, url: &str) -> (page: String)
    ensures
        page@ == page_text(title@, url@),
{
    let mut page = String::from_str(PAGE_HEAD);
    page.append(title);
    page.append(PAGE_AFTER_TITLE);
    page.append(STYLE);
    page.append(PAGE_AFTER_STYLE);
    page.append(url);
    page.append(PAGE_AFTER_URL);
    page.append(SCRIPT);
    page.append(PAGE_TAIL);
    page
}

} // verus!
