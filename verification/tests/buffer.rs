use laralsp::buffer::Buffer;
use laralsp::syntax_tree::Point;

#[test]
fn get_function() {
    let str = "<?php


        /*
        |--------------------------------------------------------------------------
        | Web Routes
        |--------------------------------------------------------------------------
        |
        | Here is where you can register web routes for your application. These
        | routes are loaded by the RouteServiceProvider and all of them will
        | be assigned to the \"web\" middleware group. Make something great!
        |
        */

        Route::get('/', function () {
            return view('welcome');
        })->name(\"homepage\");
        route('h');

        DB::table('faouzi');
            ";

    let buffer = Buffer::new(str.to_string()).unwrap();
    let point = Point { row: 17, column: 15 };

    assert_eq!(buffer.get_function_call(point), Some("route".to_string()));

    let point = Point { row: 19, column: 22 };
    assert_eq!(buffer.get_function_call(point), Some("table".to_string()));
}

#[test]
fn get_list_of_vars() {
    let str = "<?php


                /*
                |--------------------------------------------------------------------------
                | Web Routes
                |--------------------------------------------------------------------------
                |
                | Here is where you can register web routes for your application. These
                | routes are loaded by the RouteServiceProvider and all of them will
                | be assigned to the \"web\" middleware group. Make something great!
                |
                */

                Route::get('/', function () {
                    $var = \"Testing\";
                    return view('welcome');
                })->name(\"homepage\");
                route('h')";

    let buffer = Buffer::new(str.to_string()).unwrap();
    let point = Point { row: 16, column: 22 };

    let node = buffer.get_node_at_point(point).unwrap();
    let parent = buffer.tree.parent_of(node).unwrap();
    let grandparent = buffer.tree.parent_of(parent).unwrap();
    println!("{}", buffer.tree.node_text(grandparent));
}
