use mung::decode_entities;
use mung::decode_quoted_printable;
use mung::decode_rfc1738;
use mung::decode_rfc2047;

	#[test]
	fn test_decode_entities( ) {

		assert_eq!( decode_entities( "" ),				"" );
		assert_eq!( decode_entities( "test." ),			"test." );
		assert_eq!( decode_entities( "&amp;" ),			"&" );
		assert_eq!( decode_entities( "&amp;amp;" ),		"&" );
		assert_eq!( decode_entities( "&#38;" ),			"&" );
		assert_eq!( decode_entities( "&#38;#38;" ),		"&" );
		assert_eq!( decode_entities( "&amp;lt;" ),		"<" );
		assert_eq!( decode_entities( "&#8800;" ),		"≠" );
		assert_eq!( decode_entities( "&amp;#8800;" ),	"≠" );
		assert_eq!( decode_entities( "&#x2665;" ),		"♥" );
		assert_eq!( decode_entities( "&amp;#x2665;" ),	"♥" );
		assert_eq!( decode_entities( "&#x9999999;" ),	"�" );

	}

	#[test]
	fn test_decode_rfc1738( ) {
		assert_eq!( decode_rfc1738( "%25" ),	"%" );

		assert_eq!( decode_rfc1738( "Fran%c3%a7ois" ),	"François" );

		assert_eq!( decode_rfc1738( "assassin%27s-creed-chronicles-china" ),	"assassin\'s-creed-chronicles-china" );
		assert_eq!( decode_rfc1738( "assassin%e2%80%99s-creed-chronicles-russia" ),	"assassin’s-creed-chronicles-russia" );

		assert_eq!( decode_rfc1738( "/end_point/%3Fsource%3D%2Fdata%20here" ),	"/end_point/?source=/data here" );
	}

	#[test]
	fn test_decode_entities_failure( ) {

		assert_ne!( decode_entities( "" ), " " );
		assert_ne!( decode_entities( "&amp;" ), "&amp;" );
		assert_ne!( decode_entities( "&amp;amp;" ), "&amp;amp;" );
		assert_ne!( decode_entities( "&#38;" ), "&#38;" );
		assert_ne!( decode_entities( "&#38;#38;" ), "&#38;" );
		assert_ne!( decode_entities( "&#38;#38;" ), "&#38;#38;" );
		assert_ne!( decode_entities( "&amp;lt;" ), "&amp;lt;" );
		assert_eq!( decode_entities( "&fred;" ), "fred" );
		assert_ne!( decode_entities( "&#8800;" ), "&#8800;" );
		assert_ne!( decode_entities( "&amp;#8800;" ), "&amp;#8800;" );
		assert_ne!( decode_entities( "&#x2665;" ), "&#x2665;" );
		assert_ne!( decode_entities( "&#x9999999;" ), "&#x9999999;" );
	}


	#[test]
	fn test_decode_rfc2047( ) {

		assert_eq!( decode_rfc2047( "Subject: =?utf-8?B?dGVzdA==?= testing" ),
									"Subject: test testing" );
		assert_eq!( decode_rfc2047( "Subject: =?utf-8?B?0J/Qu9Cw0YHRgtC40LrQvtCy0YvQtSBv0LrQvdCwINC/0L4g0YHQv9C10YbRhtC10L1l?=" ),
									"Subject: Пластиковые oкна по спецценe" );
		assert_eq!( decode_rfc2047( "Subject: =?utf-8?B?am9objrlpoLkvZXpmY3kvY7ph4fotK3nianlk4HnmoTlupPlrZjmiJDmnKzvvJ9k?==?utf-8?B?eXRtbw==?=" ),
									"Subject: john:如何降低采购物品的库存成本？dytmo" );
		assert_eq!( decode_rfc2047( "Subject: =?UTF-8?B?RG91Y2V1cnMgZCdoaXZlciA6IHRvdXQgw6AgLTQwJQ==?=" ),
									"Subject: Douceurs d'hiver : tout à -40%" );
		assert_eq!( decode_rfc2047( "Subject: =?utf-8?B?MDM6MjQ6MTfjgI485pyJPjzlj5E+POelqD485Luj?=\n\t\t\t\t\t\t\t\t\t\t=?utf-8?B?Pjzplos+44CP4piPOjEzNjQyMzUyNTMw5YiYKw==?=\n\t\t\t\t\t\t\t\t\t\t=?utf-8?B?UToyODU4MzcyMjY=?=" ),
									"Subject: 03:24:17『<有><发><票><代><開>』☏:13642352530刘+Q:285837226" );
		assert_eq!( decode_rfc2047( "Subject: =?GB2312?B?Mc67s7W85Nb3yM61xLncwO3QxLXDLMDPsOW3/sHL?=" ),
									"Subject: 1位车间主任的管理心得,老板服了" );
		assert_eq!( decode_rfc2047( "Subject: =?GB2312?B?s8m5prXEsvrGt76twO0=?=" ),
									"Subject: 成功的产品经理" );
		assert_eq!( decode_rfc2047( "Subject: =?big5?B?rPyw6q3suMu1UqdRpGggxenF57ZXr8WpyrdSpc2soSCw06t+OKfpIK5NwFw3p+k=?=zatb" ),
									"Subject: 美國原裝犀利士 體驗超級性愛生活 商品8折 套餐7折zatb" );
		assert_eq!( decode_rfc2047( "Subject: ?Big5?" ), "Subject: ?Big5?" );
		assert_eq!( decode_rfc2047( "From: =?utf-8?B?5YWa6Z2S5peL?= <rjunskde@tecye.net>" ),
									"From: 党青旋 <rjunskde@tecye.net>" );
		assert_eq!( decode_rfc2047( "From: =?utf-8?B?ItCX0JXQnNCb0K/QndCVIg==?= <8ac5d01@americamel.net>" ),
									"From: \"ЗЕМЛЯНЕ\" <8ac5d01@americamel.net>" );

		assert_eq!( decode_rfc2047( "From: Nathaniel Borenstein <nsb@thumper.bellcore.com> (=?iso-8859-8?b?7eXs+SDv4SDp7Oj08A==?=)" ),
									"From: Nathaniel Borenstein <nsb@thumper.bellcore.com> (םולש ןב ילטפנ)" );
		assert_eq!( decode_rfc2047( "From: =?US-ASCII?Q?Keith_Moore?= <moore@cs.utk.edu>" ),
									"From: Keith Moore <moore@cs.utk.edu>" );
		assert_eq!( decode_rfc2047( "To: =?ISO-8859-1?Q?Keld_J=F8rn_Simonsen?= <keld@dkuug.dk>" ),
									"To: Keld Jørn Simonsen <keld@dkuug.dk>" );
		assert_eq!( decode_rfc2047( "CC: =?ISO-8859-1?Q?Andr=E9?= Pirard <PIRARD@vm1.ulg.ac.be>" ),
									"CC: André Pirard <PIRARD@vm1.ulg.ac.be>" );
		assert_eq!( decode_rfc2047( "From: =?ISO-8859-1?Q?Patrik_F=E4ltstr=F6m?= <paf@nada.kth.se>" ),
									"From: Patrik Fältström <paf@nada.kth.se>" );
		assert_eq!( decode_rfc2047( "From: =?UTF-8?Q?Patrik_F=C3=A4ltstr=C3=B6m?= <paf@nada.kth.se>" ),
									"From: Patrik Fältström <paf@nada.kth.se>" );

		assert_eq!( decode_rfc2047( "Subject: =?big5?Q?=A4=A3=AA=E1=BF=FA=A5u=AA=E1=B4X=A4=C0=AE=C9=B6=A1?=" ),
									"Subject: 不花錢只花幾分時間" );

		assert_eq!( decode_rfc2047( "From: =?utf-8?Q?=E9=A6=99=E6=B8=AF=E8=BF=9B=E5=8F=A3?= <hk_import4@163.com>" ), "From: 香港进口 <hk_import4@163.com>" );
	}

	#[test]
	fn test_decode_rfc2047_whitespace( ) {

		assert_eq!( decode_rfc2047( "Subject: =?ISO-8859-1?B?SWYgeW91IGNhbiByZWFkIHRoaXMgeW8=?=\n    =?ISO-8859-2?B?dSB1bmRlcnN0YW5kIHRoZSBleGFtcGxlLg==?=" ),
									"Subject: If you can read this you understand the example." );
		assert_eq!( decode_rfc2047( "(=?ISO-8859-1?Q?a?=)" ),						"(a)" );
		assert_eq!( decode_rfc2047( "(=?ISO-8859-1?Q?a?= b)" ),						"(a b)" );
		assert_eq!( decode_rfc2047( "(=?ISO-8859-1?Q?a?= =?ISO-8859-1?Q?b?=)" ),	"(ab)" );
		assert_eq!( decode_rfc2047( "(=?ISO-8859-1?Q?a?=  =?ISO-8859-1?Q?b?=)" ),	"(ab)" );
		assert_eq!( decode_rfc2047( "(=?ISO-8859-1?Q?a?=\n             =?ISO-8859-1?Q?b?=)" ), "(ab)" );
		assert_eq!( decode_rfc2047( "(=?ISO-8859-1?Q?a?=\n\t\t\t=?ISO-8859-1?Q?b?=)" ), "(ab)" );
		assert_eq!( decode_rfc2047( "(=?ISO-8859-1?Q?a_b?=)" ), "(a b)" );
		assert_eq!( decode_rfc2047( "(=?ISO-8859-1?Q?a?= =?ISO-8859-1?Q?_b?=)" ),	"(a b)" );
	}

	#[test]
	#[should_panic]
	fn test_decode_rfc2047_failure( ) {

		assert_eq!( decode_rfc2047( "=?utf-8?b?¢?= failure to decode base64" ), "failure to decode base64" );
		assert_eq!( decode_rfc2047( "=?utf-8?z?dGVzdA==?= unknown encoding" ), "unknown encoding" );
		assert_eq!( decode_rfc2047( "=?zalgo-he-comes?q?=AF?= unknown charset" ), "unknown charset" );
	}


	#[test]
	fn test_decode_rfc2047_quoted_printable( ) {
		assert_eq!( decode_quoted_printable( "=0D=0A", "utf-8" ),	"\r\n" );
		assert_eq!( decode_quoted_printable( "=0d=0a", "utf-8" ),	"\r\n" );
		assert_eq!( decode_quoted_printable( "=F8", "ISO-8859-1" ),	"ø" );
		assert_eq!( decode_quoted_printable( "=F8", "ISO-8859-8" ),	"ר" );
		assert_eq!( decode_quoted_printable( "_",	"UTF-8" ),		" " );
		assert_eq!( decode_quoted_printable( "a",	"ISO-8859-1" ),	"a" );
		assert_eq!( decode_quoted_printable( "a_b", "ISO-8859-1" ),	"a b" );
		assert_eq!( decode_quoted_printable( "dog", "ISO-8859-1" ),	"dog" );
		assert_eq!( decode_quoted_printable( "___", "ISO-8859-1" ),	"   " );

	}
