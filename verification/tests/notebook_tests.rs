use arcee_code::tools::notebook_edit::source_lines;

#[test]
fn test_source_line_splitting() {
    let source = "import pandas as pd\ndf = pd.read_csv('data.csv')\nprint(df.head())";
    let lines = source_lines(source);
    assert_eq!(lines.len(), 3);
    assert_eq!(lines[0], "import pandas as pd\n");
    assert_eq!(lines[2], "print(df.head())");
}

#[test]
fn empty_source_has_no_lines() {
    assert!(source_lines("").is_empty());
    assert_eq!(source_lines("one"), vec!["one".to_string()]);
}

use arcee_code::tools::notebook_edit::{NotebookEditTool, NotebookRequest, EMPTY_NOTEBOOK};
use arcee_code::tools::Early;

fn request(source: &str, cell: Option<u64>, cell_type: &str, mode: &str) -> NotebookRequest {
    NotebookRequest {
        notebook_path: "nb.ipynb".to_string(),
        new_source: source.to_string(),
        cell_number: cell,
        cell_type: cell_type.to_string(),
        edit_mode: mode.to_string(),
    }
}

#[test]
fn insert_into_new_notebook_writes_pretty_json() {
    let req = request("# Title\nmore", None, "markdown", "insert");
    let (text, count) = NotebookEditTool::apply_notebook_edit("/p/nb.ipynb", EMPTY_NOTEBOOK, &req).ok().unwrap();
    assert_eq!(count, 1);
    assert!(text.contains("\n  \"cells\": ["));
    let v: serde_json::Value = serde_json::from_str(&text).unwrap();
    assert_eq!(v["cells"][0]["cell_type"], "markdown");
    assert_eq!(v["cells"][0]["source"][0], "# Title\n");
    assert_eq!(v["cells"][0]["source"][1], "more");
    assert_eq!(v["nbformat"], 4);
    assert_eq!(v["metadata"]["kernelspec"]["name"], "python3");
}

#[test]
fn insert_code_cell_has_outputs_and_count() {
    let req = request("x = 1", Some(9), "code", "insert");
    let (text, count) = NotebookEditTool::apply_notebook_edit("/p/nb.ipynb", EMPTY_NOTEBOOK, &req).ok().unwrap();
    assert_eq!(count, 1);
    let v: serde_json::Value = serde_json::from_str(&text).unwrap();
    assert_eq!(v["cells"][0]["cell_type"], "code");
    assert!(v["cells"][0]["execution_count"].is_null());
    assert_eq!(v["cells"][0]["outputs"], serde_json::Value::Array(vec![]));
}

#[test]
fn replace_and_delete_cells() {
    let nb = "{\"cells\":[{\"cell_type\":\"code\",\"source\":[\"a\"]},{\"cell_type\":\"code\",\"source\":[\"b\"]}],\"nbformat\":4}";
    let (text, count) =
        NotebookEditTool::apply_notebook_edit("/p/nb.ipynb", nb, &request("new", Some(1), "markdown", "replace"))
            .ok()
            .unwrap();
    assert_eq!(count, 2);
    let v: serde_json::Value = serde_json::from_str(&text).unwrap();
    assert_eq!(v["cells"][1]["source"][0], "new");
    assert_eq!(v["cells"][1]["cell_type"], "markdown");
    assert_eq!(v["cells"][0]["source"][0], "a");
    let (text, count) =
        NotebookEditTool::apply_notebook_edit("/p/nb.ipynb", nb, &request("", Some(0), "code", "delete")).ok().unwrap();
    assert_eq!(count, 1);
    let v: serde_json::Value = serde_json::from_str(&text).unwrap();
    assert_eq!(v["cells"][0]["source"][0], "b");
}

#[test]
fn unreadable_notebooks_fail_the_call() {
    let req = request("x", None, "code", "insert");
    match NotebookEditTool::apply_notebook_edit("/p/nb.ipynb", "not json", &req) {
        Err(Early::Fail(m)) => assert!(m.starts_with("Failed to parse notebook /p/nb.ipynb: ")),
        _ => panic!("expected a failure"),
    }
    match NotebookEditTool::apply_notebook_edit("/p/nb.ipynb", "{\"nbformat\":4}", &req) {
        Err(Early::Fail(m)) => assert_eq!(m, "Invalid notebook: missing 'cells' array"),
        _ => panic!("expected a failure"),
    }
}

#[test]
fn out_of_range_cell_is_answered() {
    let req = request("x", Some(3), "code", "replace");
    match NotebookEditTool::apply_notebook_edit("/p/nb.ipynb", EMPTY_NOTEBOOK, &req) {
        Err(Early::Output(o)) => assert!(o.render().contains("Cell index 3 out of range (notebook has 0 cells)")),
        _ => panic!("expected an answer"),
    }
}

#[test]
fn missing_notebook_only_for_insert() {
    assert!(NotebookEditTool::absent(&request("x", None, "code", "insert"), "/p/n.ipynb").is_none());
    let o = NotebookEditTool::absent(&request("x", None, "code", "replace"), "/p/n.ipynb").unwrap();
    assert_eq!(o.render(), "Notebook not found: /p/n.ipynb");
    assert!(o.is_error);
}
