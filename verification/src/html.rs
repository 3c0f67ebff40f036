//! The fixed HTML fragments the pages are assembled from.
use vstd::prelude::*;

verus! {

/// The head of every page: doctype, metadata, style sheets, and the opening `<body>`.
pub const HTML_HEAD: &'static str = "<!doctype html><html lang=\"zh-CN\">
  <head>
    <meta charset=\"utf-8\">
    <meta http-equiv=\"X-UA-Compatible\" content=\"IE=edge\">
    <meta name=\"viewport\" content=\"width=device-width, initial-scale=1\">
    <title>表单页面</title>
    <link rel=\"stylesheet\" href=\"https://stackpath.bootstrapcdn.com/bootstrap/3.4.1/css/bootstrap.min.css\" integrity=\"sha384-HSMxcRTRxnN+Bdg0JdbxYKrThecOKuH5zCYotlSAcp1+c8xmyTe9GYg1l9a69psu\" crossorigin=\"anonymous\">
    <link rel='stylesheet' href='https://unpkg.com/x-data-spreadsheet@1.1.9/dist/xspreadsheet.css'>
  </head>
  <body>";

/// The tail of every page: scripts, and the closing `</body></html>`.
pub const HTML_TAIL: &'static str = "<script src=\"https://cdn.jsdelivr.net/npm/jquery@1.12.4/dist/jquery.min.js\" integrity=\"sha384-nvAa0+6Qg9clwYCGGPpDQLVpLNn0fRaROjHqs13t4Ggj3Ez50XnGQqc/r8MhnRDZ\" crossorigin=\"anonymous\"></script>
<script src=\"https://stackpath.bootstrapcdn.com/bootstrap/3.4.1/js/bootstrap.min.js\" integrity=\"sha384-aJ21OjlMXNL5UyIl/XNwTMqvzeRMZH2w8c5cRVpzpU8Y5bApTppSuUkhZXN0VxHd\" crossorigin=\"anonymous\"></script>
<script type=\"text/javascript\" src=\"https://unpkg.com/x-data-spreadsheet@1.0.20/dist/locale/zh-cn.js\"></script>
<script src=\"https://unpkg.com/x-data-spreadsheet@1.1.9/dist/xspreadsheet.js\"></script>
</body>
</html>";

/// The opening of the submission form, with its hidden timestamp field.
pub const FORM_HEAD: &'static str = "<form class=\"form-horizontal\" id=\"info_form\" style=\"margin-top:100px\"><div class=\"form-group\">
<input id='time_millisecond' name='time_millisecond' type='hidden'>";

/// The close of the submission form: the submit button and its alerts.
pub const FORM_TAIL: &'static str = "<div class=\"col-sm-2\"></div>
<div class=\"col-sm-10\">
  <button type=\"button\" class=\"btn btn-success\" onclick=\"submit_form()\">提交</button>
  <div id=\"myAlert1\" style=\"display:none\" class=\"alert alert-warning\">
      <a href=\"#\" class=\"close\" data-dismiss=\"alert\">&times;</a>
      <strong>警告！</strong>提交失败，请检查输入参数是否正确
  </div>
  <div id=\"myAlert2\" style=\"display:none\" class=\"alert alert-warning\">
      <a href=\"#\" class=\"close\" data-dismiss=\"alert\">&times;</a>
      <strong>警告！</strong>提交失败，请检查网络后重试
  </div>
  <div id=\"myAlert3\" style=\"display:none\" class=\"alert alert-success\">
      <a href=\"#\" class=\"close\" data-dismiss=\"alert\">&times;</a>
      <strong>提交成功！</strong>
      </div>
  </div></div></form>";

/// The script that serialises the form and posts it to `/submit`.
pub const SCRIPT: &'static str = "<script type='text/javascript'>
function submit_form() {
    initSerializeObject();
    $('#time_millisecond').val(new Date().getTime());
    let jsonData = $('#info_form').serializeObject();

    if (check(jsonData)) {
        $.ajax({
            type: 'post',
            url: '/submit',
            contentType: 'application/json; charset=utf-8',
            cache: false,
            withCredentials: true,
            async: false,
            data: JSON.stringify(jsonData),
            success: function(resultData) {
                $('#myAlert3').css('display', 'block');
                setTimeout(\"hidden_obj('#myAlert3')\",2000);
            },
            error: function(result) {
                $('#myAlert2').css('display', 'block');
                setTimeout(\"hidden_obj('#myAlert2')\",2000);
            }
        })
    } else {
        $('#myAlert1').css('display', 'block');
        setTimeout(\"hidden_obj('#myAlert1')\",2000);
    }
}
function hidden_obj(id){
    $(id).css('display', 'none');
}
function initSerializeObject() {
    $.fn.serializeObject = function() {
        var o = {};
        var a = this.serializeArray();
        $.each(a,
        function() {
            if (o[this.name]) {
                if (!o[this.name].push) {
                    o[this.name] = [o[this.name]]
                }
                o[this.name].push(this.value || '')
            } else {
                o[this.name] = this.value || ''
            }
        });
        return o
    }
}
</script>
";

} // verus!
