# database

The data layer of a study-notes tool: collections hold notebooks, notebooks
hold notes, and notes are linked to tags from a fixed taxonomy.

`src/` is verified with Verus. Each operation (`get_all`, `get_by_name`,
`create_one`, `update_one`, `delete_one`, the sample data) is a small state
machine: it hands out one request for the object-relational mapper at a time
(`crud::query::Request`) and takes the reply back, and its contract states the
next request or the result for every reply. `store` models the database with
its primary and foreign keys, and `laws` proves, over that model, what the
operations achieve: a record is read back as written, an update changes only
the columns given and moves a renamed record to its new name, a deletion
removes exactly its record and undoes a creation, a note's tags are replaced
by the given ones, the sample data stops at the first refused insert, and a
failure ends any operation.

`app/` is the command-line program: it parses the arguments, performs the
requests against the database with the mapper, and prints the results.
